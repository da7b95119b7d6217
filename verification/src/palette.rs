//! The palette: five named colours, each with a fixed RGB triple.

use crate::escape::{decimal, foreground};
use crate::hash::PALETTE_SIZE;
use vstd::prelude::*;
use vstd::std_specs::convert::FromSpecImpl;

verus! {

/// One entry of the palette.
///
/// The entries stand in a fixed order, and a bucket index selects the entry at
/// that place: Mint is entry 0 and Apricot entry 4.
#[derive(Clone, Copy, Debug, PartialEq, Eq, Structural)]
pub enum ColorHash {
    /// `#9ff28f`
    Mint,
    /// `#ffcd1c`
    Lightning,
    /// `#6f44f0`
    Delta,
    /// `#452859`
    Bossanova,
    /// `#f47868`
    Apricot,
}

impl ColorHash {
    /// The entry at a place of the palette.
    pub open spec fn entry(index: nat) -> ColorHash
        recommends
            index < PALETTE_SIZE,
    {
        if index == 0 {
            ColorHash::Mint
        } else if index == 1 {
            ColorHash::Lightning
        } else if index == 2 {
            ColorHash::Delta
        } else if index == 3 {
            ColorHash::Bossanova
        } else {
            ColorHash::Apricot
        }
    }

    /// The red, green and blue channels of the entry.
    pub open spec fn channels(self) -> (u8, u8, u8) {
        match self {
            ColorHash::Mint => (159, 242, 143),
            ColorHash::Lightning => (255, 205, 28),
            ColorHash::Delta => (111, 68, 240),
            ColorHash::Bossanova => (69, 40, 89),
            ColorHash::Apricot => (244, 120, 104),
        }
    }

    /// Whether a triple is the triple of one of the five entries.
    pub open spec fn is_palette_triple(triple: (u8, u8, u8)) -> bool {
        ||| triple == (159u8, 242u8, 143u8)
        ||| triple == (255u8, 205u8, 28u8)
        ||| triple == (111u8, 68u8, 240u8)
        ||| triple == (69u8, 40u8, 89u8)
        ||| triple == (244u8, 120u8, 104u8)
    }

    /// The entry's name, as characters.
    pub open spec fn label(self) -> Seq<char> {
        match self {
            ColorHash::Mint => seq!['M', 'i', 'n', 't'],
            ColorHash::Lightning => seq!['L', 'i', 'g', 'h', 't', 'n', 'i', 'n', 'g'],
            ColorHash::Delta => seq!['D', 'e', 'l', 't', 'a'],
            ColorHash::Bossanova => seq!['B', 'o', 's', 's', 'a', 'n', 'o', 'v', 'a'],
            ColorHash::Apricot => seq!['A', 'p', 'r', 'i', 'c', 'o', 't'],
        }
    }

    /// The escape sequence that selects the entry as the foreground colour.
    pub open spec fn escape(self) -> Seq<char> {
        foreground(self.channels().0, self.channels().1, self.channels().2)
    }

    /// The entry's RGB triple.
    pub fn rgb(&self) -> (triple: (u8, u8, u8))
        ensures
            triple == self.channels(),
    {
        match self {
            ColorHash::Mint => (159, 242, 143),
            ColorHash::Lightning => (255, 205, 28),
            ColorHash::Delta => (111, 68, 240),
            ColorHash::Bossanova => (69, 40, 89),
            ColorHash::Apricot => (244, 120, 104),
        }
    }

    /// The entry's name.
    pub fn name(&self) -> (name: &'static str)
        ensures
            name@ == self.label(),
    {
        match self {
            ColorHash::Mint => {
                proof {
                    reveal_strlit("Mint");
                }
                assert("Mint"@ =~= self.label());
                "Mint"
            },
            ColorHash::Lightning => {
                proof {
                    reveal_strlit("Lightning");
                }
                assert("Lightning"@ =~= self.label());
                "Lightning"
            },
            ColorHash::Delta => {
                proof {
                    reveal_strlit("Delta");
                }
                assert("Delta"@ =~= self.label());
                "Delta"
            },
            ColorHash::Bossanova => {
                proof {
                    reveal_strlit("Bossanova");
                }
                assert("Bossanova"@ =~= self.label());
                "Bossanova"
            },
            ColorHash::Apricot => {
                proof {
                    reveal_strlit("Apricot");
                }
                assert("Apricot"@ =~= self.label());
                "Apricot"
            },
        }
    }

    /// The escape sequence that selects the entry as the foreground colour:
    /// `ESC [ 38 ; 2 ; R ; G ; B m` with the entry's own channels.
    pub fn code(&self) -> (sequence: String)
        ensures
            sequence@ == self.escape(),
    {
        proof {
            reveal_with_fuel(decimal, 3);
        }
        match self {
            ColorHash::Mint => {
                proof {
                    reveal_strlit("\u{001B}[38;2;159;242;143m");
                }
                assert("\u{001B}[38;2;159;242;143m"@ =~= self.escape());
                "\u{001B}[38;2;159;242;143m".to_string()
            },
            ColorHash::Lightning => {
                proof {
                    reveal_strlit("\u{001B}[38;2;255;205;28m");
                }
                assert("\u{001B}[38;2;255;205;28m"@ =~= self.escape());
                "\u{001B}[38;2;255;205;28m".to_string()
            },
            ColorHash::Delta => {
                proof {
                    reveal_strlit("\u{001B}[38;2;111;68;240m");
                }
                assert("\u{001B}[38;2;111;68;240m"@ =~= self.escape());
                "\u{001B}[38;2;111;68;240m".to_string()
            },
            ColorHash::Bossanova => {
                proof {
                    reveal_strlit("\u{001B}[38;2;69;40;89m");
                }
                assert("\u{001B}[38;2;69;40;89m"@ =~= self.escape());
                "\u{001B}[38;2;69;40;89m".to_string()
            },
            ColorHash::Apricot => {
                proof {
                    reveal_strlit("\u{001B}[38;2;244;120;104m");
                }
                assert("\u{001B}[38;2;244;120;104m"@ =~= self.escape());
                "\u{001B}[38;2;244;120;104m".to_string()
            },
        }
    }
}

impl From<u32> for ColorHash {
    /// The entry that a number selects: the one at the number's remainder by
    /// the palette size.
    fn from(value: u32) -> (color: ColorHash)
        ensures
            color == ColorHash::entry((value % PALETTE_SIZE) as nat),
    {
        let place: u32 = value % PALETTE_SIZE;
        match place {
            0 => ColorHash::Mint,
            1 => ColorHash::Lightning,
            2 => ColorHash::Delta,
            3 => ColorHash::Bossanova,
            _ => ColorHash::Apricot,
        }
    }
}

impl FromSpecImpl<u32> for ColorHash {
    open spec fn obeys_from_spec() -> bool {
        true
    }

    open spec fn from_spec(value: u32) -> ColorHash {
        ColorHash::entry((value % PALETTE_SIZE) as nat)
    }
}

} // verus!
