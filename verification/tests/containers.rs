use media_kit::jar::Jar;
use media_kit::symbol_table::{Symbol, SymbolTable};

fn ranges(jar: &Jar<u8>) -> Vec<Vec<u8>> {
    (0..jar.len()).map(|i| jar.get_range(i).to_vec()).collect()
}

#[test]
fn jar_starts_empty() {
    let jar: Jar<u8> = Jar::new();
    assert_eq!(jar.len(), 0);
    assert!(jar.values.is_empty());
}

#[test]
fn jar_append_ranges() {
    let mut jar: Jar<u8> = Jar::new();
    jar.append_range(&[1, 2, 3]);
    jar.append_empty_range();
    jar.append_range(&[4]);
    assert_eq!(jar.len(), 3);
    assert_eq!(ranges(&jar), vec![vec![1, 2, 3], vec![], vec![4]]);
    assert_eq!(jar.begin_indices, vec![0, 3, 3]);
}

#[test]
fn jar_append_to_range_puts_in_front() {
    let mut jar: Jar<u8> = Jar::new();
    jar.append_range(&[1, 2]);
    jar.append_empty_range();
    jar.append_range(&[3]);
    jar.append_to_range(0, 9);
    assert_eq!(ranges(&jar), vec![vec![9, 1, 2], vec![], vec![3]]);
    jar.append_to_range(1, 8);
    assert_eq!(ranges(&jar), vec![vec![9, 1, 2], vec![8], vec![3]]);
    jar.append_to_range(2, 7);
    assert_eq!(ranges(&jar), vec![vec![9, 1, 2], vec![8], vec![7, 3]]);
}

#[test]
fn jar_append_slice_to_range_reverses() {
    let mut jar: Jar<u8> = Jar::new();
    jar.append_range(&[1]);
    jar.append_range(&[2]);
    jar.append_slice_to_range(0, &[7, 8, 9]);
    assert_eq!(ranges(&jar), vec![vec![9, 8, 7, 1], vec![2]]);
    jar.append_slice_to_range(1, &[]);
    assert_eq!(ranges(&jar), vec![vec![9, 8, 7, 1], vec![2]]);
}

#[test]
fn jar_append_to_last_range() {
    let mut jar: Jar<u8> = Jar::new();
    jar.append_range(&[1]);
    jar.append_empty_range();
    jar.append_to_last_range(5);
    jar.append_to_last_range(6);
    assert_eq!(ranges(&jar), vec![vec![1], vec![5, 6]]);
    let mut jar: Jar<u8> = Jar::new();
    jar.append_to_last_range(5);
    assert_eq!(jar.len(), 0);
    assert_eq!(jar.values, vec![5]);
    jar.append_range(&[6]);
    assert_eq!(ranges(&jar), vec![vec![6]]);
}

#[test]
fn jar_remove() {
    let mut jar: Jar<u8> = Jar::new();
    jar.append_range(&[1, 2]);
    jar.append_range(&[3, 4, 5]);
    jar.append_empty_range();
    jar.append_range(&[6]);
    jar.remove(1);
    assert_eq!(ranges(&jar), vec![vec![1, 2], vec![], vec![6]]);
    jar.remove(1);
    assert_eq!(ranges(&jar), vec![vec![1, 2], vec![6]]);
    jar.remove(1);
    assert_eq!(ranges(&jar), vec![vec![1, 2]]);
    jar.remove(0);
    assert_eq!(jar.len(), 0);
    assert!(jar.values.is_empty());
}

#[test]
fn jar_get_range_mut_writes_in_place() {
    let mut jar: Jar<u8> = Jar::new();
    jar.append_range(&[1, 2]);
    jar.append_range(&[3, 4, 5]);
    jar.append_range(&[6]);
    let range = jar.get_range_mut(1);
    assert_eq!(range.to_vec(), vec![3, 4, 5]);
    range[0] = 30;
    range[2] = 50;
    assert_eq!(ranges(&jar), vec![vec![1, 2], vec![30, 4, 50], vec![6]]);
}

#[test]
fn jar_clear() {
    let mut jar: Jar<u8> = Jar::new();
    jar.append_range(&[1, 2]);
    jar.clear();
    assert_eq!(jar.len(), 0);
    assert!(jar.values.is_empty());
    assert!(jar.begin_indices.is_empty());
}

#[test]
fn symbols_are_given_once() {
    let mut table = SymbolTable::new();
    assert_eq!(table.get_symbol("a"), Symbol { value: 0 });
    assert_eq!(table.get_symbol("b"), Symbol { value: 1 });
    assert_eq!(table.get_symbol("a"), Symbol { value: 0 });
    assert_eq!(table.get_symbol(""), Symbol { value: 2 });
    assert_eq!(table.counter, 3);
    assert_eq!(table.strings, vec!["a".to_string(), "b".to_string(), String::new()]);
}

#[test]
fn symbols_lookup() {
    let mut table = SymbolTable::new();
    assert_eq!(table.try_get_symbol("x"), None);
    let x = table.get_symbol("x");
    let y = table.get_symbol("y");
    assert_eq!(table.try_get_symbol("x"), Some(x));
    assert_eq!(table.try_get_symbol("y"), Some(y));
    assert_eq!(table.try_get_symbol("z"), None);
    assert_eq!(table.get_string(x), "x");
    assert_eq!(table.get_string(y), "y");
    assert_ne!(x, y);
}
