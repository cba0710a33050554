//! A colour of four bytes: red, green, blue and alpha.

use vstd::prelude::*;
use vstd::string::StringExecFns;

verus! {

/// A colour of four bytes.
#[derive(Debug, Clone, Copy, PartialEq, Eq, Structural)]
pub struct Col32 {
    pub r: u8,
    pub g: u8,
    pub b: u8,
    pub a: u8,
}

/// The lower-case hexadecimal digit for a number below sixteen.
pub open spec fn hex_char(n: int) -> char {
    if n == 0 {
        '0'
    } else if n == 1 {
        '1'
    } else if n == 2 {
        '2'
    } else if n == 3 {
        '3'
    } else if n == 4 {
        '4'
    } else if n == 5 {
        '5'
    } else if n == 6 {
        '6'
    } else if n == 7 {
        '7'
    } else if n == 8 {
        '8'
    } else if n == 9 {
        '9'
    } else if n == 10 {
        'a'
    } else if n == 11 {
        'b'
    } else if n == 12 {
        'c'
    } else if n == 13 {
        'd'
    } else if n == 14 {
        'e'
    } else {
        'f'
    }
}

/// The four bytes as one number, red first: `0xRRGGBBAA`.
pub open spec fn packed(c: Col32) -> int {
    c.r * 0x100_0000 + c.g * 0x1_0000 + c.b * 0x100 + c.a
}

/// The colour that a number packs, red first.
pub open spec fn unpacked(value: u32) -> Col32 {
    Col32 {
        r: (value / 0x100_0000) as u8,
        g: (value / 0x1_0000 % 0x100) as u8,
        b: (value / 0x100 % 0x100) as u8,
        a: (value % 0x100) as u8,
    }
}

/// The text `0xrrggbb` for the three colour bytes.
pub open spec fn rgb_hex(c: Col32) -> Seq<char> {
    seq![
        '0',
        'x',
        hex_char(c.r as int / 16),
        hex_char(c.r as int % 16),
        hex_char(c.g as int / 16),
        hex_char(c.g as int % 16),
        hex_char(c.b as int / 16),
        hex_char(c.b as int % 16),
    ]
}

/// To pack a colour and unpack the number gives the colour back.
pub proof fn lemma_unpack_packed(c: Col32)
    ensures
        0 <= packed(c) <= u32::MAX,
        unpacked(packed(c) as u32) == c,
{
}

/// To unpack a number and pack the colour gives the number back.
pub proof fn lemma_pack_unpacked(value: u32)
    ensures
        packed(unpacked(value)) == value,
{
}

fn hex_digit(n: u8) -> (r: &'static str)
    requires
        n < 16,
    ensures
        r@ == seq![hex_char(n as int)],
{
    match n {
        0 => {
            proof {
                reveal_strlit("0");
            }
            "0"
        },
        1 => {
            proof {
                reveal_strlit("1");
            }
            "1"
        },
        2 => {
            proof {
                reveal_strlit("2");
            }
            "2"
        },
        3 => {
            proof {
                reveal_strlit("3");
            }
            "3"
        },
        4 => {
            proof {
                reveal_strlit("4");
            }
            "4"
        },
        5 => {
            proof {
                reveal_strlit("5");
            }
            "5"
        },
        6 => {
            proof {
                reveal_strlit("6");
            }
            "6"
        },
        7 => {
            proof {
                reveal_strlit("7");
            }
            "7"
        },
        8 => {
            proof {
                reveal_strlit("8");
            }
            "8"
        },
        9 => {
            proof {
                reveal_strlit("9");
            }
            "9"
        },
        10 => {
            proof {
                reveal_strlit("a");
            }
            "a"
        },
        11 => {
            proof {
                reveal_strlit("b");
            }
            "b"
        },
        12 => {
            proof {
                reveal_strlit("c");
            }
            "c"
        },
        13 => {
            proof {
                reveal_strlit("d");
            }
            "d"
        },
        14 => {
            proof {
                reveal_strlit("e");
            }
            "e"
        },
        _ => {
            proof {
                reveal_strlit("f");
            }
            "f"
        },
    }
}

impl Col32 {
    /// Opaque black.
    pub fn black() -> (c: Col32)
        ensures
            c == (Col32 { r: 0x00, g: 0x00, b: 0x00, a: 0xFF }),
    {
        Col32 { r: 0x00, g: 0x00, b: 0x00, a: 0xFF }
    }

    /// Opaque white.
    pub fn white() -> (c: Col32)
        ensures
            c == (Col32 { r: 0xFF, g: 0xFF, b: 0xFF, a: 0xFF }),
    {
        Col32 { r: 0xFF, g: 0xFF, b: 0xFF, a: 0xFF }
    }

    /// Opaque red.
    pub fn red() -> (c: Col32)
        ensures
            c == (Col32 { r: 0xFF, g: 0x00, b: 0x00, a: 0xFF }),
    {
        Col32 { r: 0xFF, g: 0x00, b: 0x00, a: 0xFF }
    }

    /// Opaque green.
    pub fn green() -> (c: Col32)
        ensures
            c == (Col32 { r: 0x00, g: 0xFF, b: 0x00, a: 0xFF }),
    {
        Col32 { r: 0x00, g: 0xFF, b: 0x00, a: 0xFF }
    }

    /// Opaque blue.
    pub fn blue() -> (c: Col32)
        ensures
            c == (Col32 { r: 0x00, g: 0x00, b: 0xFF, a: 0xFF }),
    {
        Col32 { r: 0x00, g: 0x00, b: 0xFF, a: 0xFF }
    }

    /// Opaque cyan.
    pub fn cyan() -> (c: Col32)
        ensures
            c == (Col32 { r: 0x00, g: 0xFF, b: 0xFF, a: 0xFF }),
    {
        Col32 { r: 0x00, g: 0xFF, b: 0xFF, a: 0xFF }
    }

    /// Opaque yellow.
    pub fn yellow() -> (c: Col32)
        ensures
            c == (Col32 { r: 0xFF, g: 0xFF, b: 0x00, a: 0xFF }),
    {
        Col32 { r: 0xFF, g: 0xFF, b: 0x00, a: 0xFF }
    }

    /// Opaque magenta.
    pub fn magenta() -> (c: Col32)
        ensures
            c == (Col32 { r: 0xFF, g: 0x00, b: 0xFF, a: 0xFF }),
    {
        Col32 { r: 0xFF, g: 0x00, b: 0xFF, a: 0xFF }
    }

    /// The opaque grey with all three colour bytes at `x`.
    pub fn gray_tone(x: u8) -> (c: Col32)
        ensures
            c == (Col32 { r: x, g: x, b: x, a: 0xFF }),
    {
        Col32 { r: x, g: x, b: x, a: 0xFF }
    }

    /// The text `0xrrggbb`: red, green and blue as two lower-case
    /// hexadecimal digits each. Alpha is left out.
    pub fn to_rgb_hex_string(&self) -> (s: String)
        ensures
            s@ == rgb_hex(*self),
    {
        proof {
            reveal_strlit("0x");
        }
        let mut s = String::from_str("0x");
        s.append(hex_digit(self.r / 16));
        s.append(hex_digit(self.r % 16));
        s.append(hex_digit(self.g / 16));
        s.append(hex_digit(self.g % 16));
        s.append(hex_digit(self.b / 16));
        s.append(hex_digit(self.b % 16));
        assert(s@ =~= rgb_hex(*self));
        s
    }

    /// The four bytes as one number, red first.
    pub fn as_u32(self) -> (u: u32)
        ensures
            u == packed(self),
    {
        let r: u32 = self.r as u32;
        let g: u32 = self.g as u32;
        let b: u32 = self.b as u32;
        let a: u32 = self.a as u32;
        r * 0x100_0000 + g * 0x1_0000 + b * 0x100 + a
    }
}

impl Default for Col32 {
    /// Transparent black.
    fn default() -> (c: Col32)
        ensures
            c == (Col32 { r: 0, g: 0, b: 0, a: 0 }),
    {
        Col32 { r: 0, g: 0, b: 0, a: 0 }
    }
}

impl From<u32> for Col32 {
    fn from(value: u32) -> (c: Col32) {
        Col32 {
            r: (value / 0x100_0000) as u8,
            g: (value / 0x1_0000 % 0x100) as u8,
            b: (value / 0x100 % 0x100) as u8,
            a: (value % 0x100) as u8,
        }
    }
}

impl vstd::std_specs::convert::FromSpecImpl<u32> for Col32 {
    open spec fn obeys_from_spec() -> bool {
        true
    }

    open spec fn from_spec(value: u32) -> Col32 {
        unpacked(value)
    }
}

impl From<Col32> for u32 {
    fn from(value: Col32) -> (u: u32) {
        value.as_u32()
    }
}

impl vstd::std_specs::convert::FromSpecImpl<Col32> for u32 {
    open spec fn obeys_from_spec() -> bool {
        true
    }

    open spec fn from_spec(value: Col32) -> u32 {
        packed(value) as u32
    }
}

} // verus!
