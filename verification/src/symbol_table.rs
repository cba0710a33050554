//! Interned strings: each distinct string gets a number, once.

use vstd::hash_map::StringHashMap;
use vstd::prelude::*;
use vstd::string::StringExecFns;

verus! {

/// The number of an interned string.
#[derive(Debug, Clone, Copy, PartialEq, Eq, Hash, Structural)]
pub struct Symbol {
    pub value: usize,
}

/// A table of interned strings. `strings` holds them in the order in which
/// they came, `table` finds the position of each, and `counter` is their
/// number.
pub struct SymbolTable {
    pub counter: usize,
    pub table: StringHashMap<usize>,
    pub strings: Vec<String>,
}

impl View for SymbolTable {
    type V = Seq<Seq<char>>;

    /// The interned strings; the number of each is its position.
    open spec fn view(&self) -> Seq<Seq<char>> {
        self.strings@.map_values(|s: String| s@)
    }
}

impl SymbolTable {
    /// The counter is the number of strings, and the table holds exactly the
    /// strings, each with its position. No string then occurs twice.
    pub open spec fn wf(&self) -> bool {
        &&& self.counter == self.strings.len()
        &&& forall|i: int| 0 <= i < self@.len() ==> self.table@.contains_key(#[trigger] self@[i])
        &&& forall|key: Seq<char>| #[trigger]
            self.table@.contains_key(key) ==> self.table@[key] < self@.len()
                && self@[self.table@[key] as int] == key
        &&& forall|i: int| 0 <= i < self@.len() ==> self.table@[#[trigger] self@[i]] == i
    }

    /// The table without strings.
    pub fn new() -> (r: SymbolTable)
        ensures
            r.wf(),
            r@ == Seq::<Seq<char>>::empty(),
    {
        let r = SymbolTable { counter: 0, table: StringHashMap::new(), strings: Vec::new() };
        assert(r@ =~= Seq::<Seq<char>>::empty());
        r
    }

    /// The symbol of `s`. A string that the table does not hold yet is
    /// added behind the others.
    pub fn get_symbol(&mut self, s: &str) -> (r: Symbol)
        requires
            old(self).wf(),
        ensures
            final(self).wf(),
            old(self)@.contains(s@) ==> final(self)@ == old(self)@,
            !old(self)@.contains(s@) ==> final(self)@ == old(self)@.push(s@),
            r.value < final(self)@.len(),
            final(self)@[r.value as int] == s@,
    {
        match self.table.get(s) {
            Some(value) => {
                let value: usize = *value;
                assert(self@[value as int] == s@);
                Symbol { value }
            },
            None => {
                proof {
                    if self@.contains(s@) {
                        let i = choose|i: int| 0 <= i < self@.len() && self@[i] == s@;
                        assert(self.table@.contains_key(self@[i]));
                    }
                }
                let value: usize = self.strings.len();
                let ghost before = self@;
                self.table.insert(String::from_str(s), value);
                self.strings.push(String::from_str(s));
                self.counter = self.strings.len();
                proof {
                    assert(self@ =~= before.push(s@));
                    assert forall|i: int| 0 <= i < self@.len() implies self.table@[#[trigger] self@[i]]
                        == i by {
                        if i < before.len() {
                            assert(before[i] == self@[i]);
                            assert(old(self).table@.contains_key(before[i]));
                        }
                    }
                    assert forall|key: Seq<char>| #[trigger]
                        self.table@.contains_key(key) implies self.table@[key] < self@.len()
                        && self@[self.table@[key] as int] == key by {
                        if key != s@ {
                            assert(old(self).table@.contains_key(key));
                        }
                    }
                }
                Symbol { value }
            },
        }
    }

    /// The symbol of `s`, if the table holds it.
    pub fn try_get_symbol(&self, s: &str) -> (r: Option<Symbol>)
        requires
            self.wf(),
        ensures
            match r {
                Some(symbol) => symbol.value < self@.len() && self@[symbol.value as int] == s@,
                None => !self@.contains(s@),
            },
    {
        match self.table.get(s) {
            Some(value) => Some(Symbol { value: *value }),
            None => {
                proof {
                    if self@.contains(s@) {
                        let i = choose|i: int| 0 <= i < self@.len() && self@[i] == s@;
                        assert(self.table@.contains_key(self@[i]));
                    }
                }
                None
            },
        }
    }

    /// The string of a symbol.
    pub fn get_string(&self, symbol: Symbol) -> (r: &str)
        requires
            symbol.value < self@.len(),
        ensures
            r@ == self@[symbol.value as int],
    {
        self.strings[symbol.value].as_str()
    }
}

/// Two symbols of one table stand for the same string only if they are the
/// same symbol.
pub proof fn lemma_symbols_distinct(table: &SymbolTable, a: Symbol, b: Symbol)
    requires
        table.wf(),
        a.value < table@.len(),
        b.value < table@.len(),
        table@[a.value as int] == table@[b.value as int],
    ensures
        a == b,
{
    assert(table.table@[table@[a.value as int]] == a.value);
    assert(table.table@[table@[b.value as int]] == b.value);
}

} // verus!
