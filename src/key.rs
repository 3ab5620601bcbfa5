//! Buttons of the keypad, the two kinds of transition, and the events that
//! carry them.

use vstd::prelude::*;

verus! {

/// A physical button of the keypad. Each button has a fixed position in the
/// report bitmap, its index, in `0..40`.
#[derive(Debug, Clone, Copy, PartialEq, Eq, Structural)]
pub enum G13Button {
    G1,
    G2,
    G3,
    G4,
    G5,
    G6,
    G7,
    G8,
    G9,
    G10,
    G11,
    G12,
    G13,
    G14,
    G15,
    G16,
    G17,
    G18,
    G19,
    G20,
    G21,
    G22,
    UNDEF1,
    LIGHTSTATE,
    BD,
    L1,
    L2,
    L3,
    L4,
    M1,
    M2,
    M3,
    MR,
    LEFT,
    DOWN,
    TOP,
    UNDEF3,
    LIGHT,
    LIGHT2,
    MISCTOGGLE,
}

/// The index of a button in the report bitmap.
pub open spec fn button_index(b: G13Button) -> nat {
    match b {
        G13Button::G1 => 0,
        G13Button::G2 => 1,
        G13Button::G3 => 2,
        G13Button::G4 => 3,
        G13Button::G5 => 4,
        G13Button::G6 => 5,
        G13Button::G7 => 6,
        G13Button::G8 => 7,
        G13Button::G9 => 8,
        G13Button::G10 => 9,
        G13Button::G11 => 10,
        G13Button::G12 => 11,
        G13Button::G13 => 12,
        G13Button::G14 => 13,
        G13Button::G15 => 14,
        G13Button::G16 => 15,
        G13Button::G17 => 16,
        G13Button::G18 => 17,
        G13Button::G19 => 18,
        G13Button::G20 => 19,
        G13Button::G21 => 20,
        G13Button::G22 => 21,
        G13Button::UNDEF1 => 22,
        G13Button::LIGHTSTATE => 23,
        G13Button::BD => 24,
        G13Button::L1 => 25,
        G13Button::L2 => 26,
        G13Button::L3 => 27,
        G13Button::L4 => 28,
        G13Button::M1 => 29,
        G13Button::M2 => 30,
        G13Button::M3 => 31,
        G13Button::MR => 32,
        G13Button::LEFT => 33,
        G13Button::DOWN => 34,
        G13Button::TOP => 35,
        G13Button::UNDEF3 => 36,
        G13Button::LIGHT => 37,
        G13Button::LIGHT2 => 38,
        G13Button::MISCTOGGLE => 39,
    }
}

/// The button at an index of the report bitmap; every index from 39 up gives
/// the last button.
pub open spec fn button_at(i: usize) -> G13Button {
    match i {
        0 => G13Button::G1,
        1 => G13Button::G2,
        2 => G13Button::G3,
        3 => G13Button::G4,
        4 => G13Button::G5,
        5 => G13Button::G6,
        6 => G13Button::G7,
        7 => G13Button::G8,
        8 => G13Button::G9,
        9 => G13Button::G10,
        10 => G13Button::G11,
        11 => G13Button::G12,
        12 => G13Button::G13,
        13 => G13Button::G14,
        14 => G13Button::G15,
        15 => G13Button::G16,
        16 => G13Button::G17,
        17 => G13Button::G18,
        18 => G13Button::G19,
        19 => G13Button::G20,
        20 => G13Button::G21,
        21 => G13Button::G22,
        22 => G13Button::UNDEF1,
        23 => G13Button::LIGHTSTATE,
        24 => G13Button::BD,
        25 => G13Button::L1,
        26 => G13Button::L2,
        27 => G13Button::L3,
        28 => G13Button::L4,
        29 => G13Button::M1,
        30 => G13Button::M2,
        31 => G13Button::M3,
        32 => G13Button::MR,
        33 => G13Button::LEFT,
        34 => G13Button::DOWN,
        35 => G13Button::TOP,
        36 => G13Button::UNDEF3,
        37 => G13Button::LIGHT,
        38 => G13Button::LIGHT2,
        _ => G13Button::MISCTOGGLE,
    }
}

/// The name under which a button is known in configuration and logs.
pub open spec fn button_label(b: G13Button) -> Seq<char> {
    match b {
        G13Button::G1 => seq!['G', '1'],
        G13Button::G2 => seq!['G', '2'],
        G13Button::G3 => seq!['G', '3'],
        G13Button::G4 => seq!['G', '4'],
        G13Button::G5 => seq!['G', '5'],
        G13Button::G6 => seq!['G', '6'],
        G13Button::G7 => seq!['G', '7'],
        G13Button::G8 => seq!['G', '8'],
        G13Button::G9 => seq!['G', '9'],
        G13Button::G10 => seq!['G', '1', '0'],
        G13Button::G11 => seq!['G', '1', '1'],
        G13Button::G12 => seq!['G', '1', '2'],
        G13Button::G13 => seq!['G', '1', '3'],
        G13Button::G14 => seq!['G', '1', '4'],
        G13Button::G15 => seq!['G', '1', '5'],
        G13Button::G16 => seq!['G', '1', '6'],
        G13Button::G17 => seq!['G', '1', '7'],
        G13Button::G18 => seq!['G', '1', '8'],
        G13Button::G19 => seq!['G', '1', '9'],
        G13Button::G20 => seq!['G', '2', '0'],
        G13Button::G21 => seq!['G', '2', '1'],
        G13Button::G22 => seq!['G', '2', '2'],
        G13Button::UNDEF1 => seq!['U', 'N', 'D', 'E', 'F', '1'],
        G13Button::LIGHTSTATE => seq!['L', 'I', 'G', 'H', 'T', '_', 'S', 'T', 'A', 'T', 'E'],
        G13Button::BD => seq!['B', 'D'],
        G13Button::L1 => seq!['L', '1'],
        G13Button::L2 => seq!['L', '2'],
        G13Button::L3 => seq!['L', '3'],
        G13Button::L4 => seq!['L', '4'],
        G13Button::M1 => seq!['M', '1'],
        G13Button::M2 => seq!['M', '2'],
        G13Button::M3 => seq!['M', '3'],
        G13Button::MR => seq!['M', 'R'],
        G13Button::LEFT => seq!['L', 'E', 'F', 'T'],
        G13Button::DOWN => seq!['D', 'O', 'W', 'N'],
        G13Button::TOP => seq!['T', 'O', 'P'],
        G13Button::UNDEF3 => seq!['U', 'N', 'D', 'E', 'F', '3'],
        G13Button::LIGHT => seq!['L', 'I', 'G', 'H', 'T'],
        G13Button::LIGHT2 => seq!['L', 'I', 'G', 'H', 'T', '2'],
        G13Button::MISCTOGGLE => seq!['M', 'I', 'S', 'C', '_', 'T', 'O', 'G', 'G', 'L', 'E'],
    }
}

impl G13Button {
    /// The button at index `i` of the report bitmap.
    pub fn from_index(i: usize) -> (b: G13Button)
        requires
            i < 40,
        ensures
            button_index(b) == i,
            b == button_at(i),
        no_unwind
    {
        match i {
            0 => G13Button::G1,
            1 => G13Button::G2,
            2 => G13Button::G3,
            3 => G13Button::G4,
            4 => G13Button::G5,
            5 => G13Button::G6,
            6 => G13Button::G7,
            7 => G13Button::G8,
            8 => G13Button::G9,
            9 => G13Button::G10,
            10 => G13Button::G11,
            11 => G13Button::G12,
            12 => G13Button::G13,
            13 => G13Button::G14,
            14 => G13Button::G15,
            15 => G13Button::G16,
            16 => G13Button::G17,
            17 => G13Button::G18,
            18 => G13Button::G19,
            19 => G13Button::G20,
            20 => G13Button::G21,
            21 => G13Button::G22,
            22 => G13Button::UNDEF1,
            23 => G13Button::LIGHTSTATE,
            24 => G13Button::BD,
            25 => G13Button::L1,
            26 => G13Button::L2,
            27 => G13Button::L3,
            28 => G13Button::L4,
            29 => G13Button::M1,
            30 => G13Button::M2,
            31 => G13Button::M3,
            32 => G13Button::MR,
            33 => G13Button::LEFT,
            34 => G13Button::DOWN,
            35 => G13Button::TOP,
            36 => G13Button::UNDEF3,
            37 => G13Button::LIGHT,
            38 => G13Button::LIGHT2,
            _ => G13Button::MISCTOGGLE,
        }
    }

    /// The index of this button in the report bitmap.
    pub fn index(&self) -> (i: usize)
        ensures
            i == button_index(*self),
    {
        match self {
            G13Button::G1 => 0,
            G13Button::G2 => 1,
            G13Button::G3 => 2,
            G13Button::G4 => 3,
            G13Button::G5 => 4,
            G13Button::G6 => 5,
            G13Button::G7 => 6,
            G13Button::G8 => 7,
            G13Button::G9 => 8,
            G13Button::G10 => 9,
            G13Button::G11 => 10,
            G13Button::G12 => 11,
            G13Button::G13 => 12,
            G13Button::G14 => 13,
            G13Button::G15 => 14,
            G13Button::G16 => 15,
            G13Button::G17 => 16,
            G13Button::G18 => 17,
            G13Button::G19 => 18,
            G13Button::G20 => 19,
            G13Button::G21 => 20,
            G13Button::G22 => 21,
            G13Button::UNDEF1 => 22,
            G13Button::LIGHTSTATE => 23,
            G13Button::BD => 24,
            G13Button::L1 => 25,
            G13Button::L2 => 26,
            G13Button::L3 => 27,
            G13Button::L4 => 28,
            G13Button::M1 => 29,
            G13Button::M2 => 30,
            G13Button::M3 => 31,
            G13Button::MR => 32,
            G13Button::LEFT => 33,
            G13Button::DOWN => 34,
            G13Button::TOP => 35,
            G13Button::UNDEF3 => 36,
            G13Button::LIGHT => 37,
            G13Button::LIGHT2 => 38,
            G13Button::MISCTOGGLE => 39,
        }
    }

    /// The name under which this button is known in configuration and logs.
    pub fn label(&self) -> (s: &'static str)
        ensures
            s@ == button_label(*self),
    {
        match self {
            G13Button::G1 => {
                proof {
                    reveal_strlit("G1");
                }
                "G1"
            },
            G13Button::G2 => {
                proof {
                    reveal_strlit("G2");
                }
                "G2"
            },
            G13Button::G3 => {
                proof {
                    reveal_strlit("G3");
                }
                "G3"
            },
            G13Button::G4 => {
                proof {
                    reveal_strlit("G4");
                }
                "G4"
            },
            G13Button::G5 => {
                proof {
                    reveal_strlit("G5");
                }
                "G5"
            },
            G13Button::G6 => {
                proof {
                    reveal_strlit("G6");
                }
                "G6"
            },
            G13Button::G7 => {
                proof {
                    reveal_strlit("G7");
                }
                "G7"
            },
            G13Button::G8 => {
                proof {
                    reveal_strlit("G8");
                }
                "G8"
            },
            G13Button::G9 => {
                proof {
                    reveal_strlit("G9");
                }
                "G9"
            },
            G13Button::G10 => {
                proof {
                    reveal_strlit("G10");
                }
                "G10"
            },
            G13Button::G11 => {
                proof {
                    reveal_strlit("G11");
                }
                "G11"
            },
            G13Button::G12 => {
                proof {
                    reveal_strlit("G12");
                }
                "G12"
            },
            G13Button::G13 => {
                proof {
                    reveal_strlit("G13");
                }
                "G13"
            },
            G13Button::G14 => {
                proof {
                    reveal_strlit("G14");
                }
                "G14"
            },
            G13Button::G15 => {
                proof {
                    reveal_strlit("G15");
                }
                "G15"
            },
            G13Button::G16 => {
                proof {
                    reveal_strlit("G16");
                }
                "G16"
            },
            G13Button::G17 => {
                proof {
                    reveal_strlit("G17");
                }
                "G17"
            },
            G13Button::G18 => {
                proof {
                    reveal_strlit("G18");
                }
                "G18"
            },
            G13Button::G19 => {
                proof {
                    reveal_strlit("G19");
                }
                "G19"
            },
            G13Button::G20 => {
                proof {
                    reveal_strlit("G20");
                }
                "G20"
            },
            G13Button::G21 => {
                proof {
                    reveal_strlit("G21");
                }
                "G21"
            },
            G13Button::G22 => {
                proof {
                    reveal_strlit("G22");
                }
                "G22"
            },
            G13Button::UNDEF1 => {
                proof {
                    reveal_strlit("UNDEF1");
                }
                "UNDEF1"
            },
            G13Button::LIGHTSTATE => {
                proof {
                    reveal_strlit("LIGHT_STATE");
                }
                "LIGHT_STATE"
            },
            G13Button::BD => {
                proof {
                    reveal_strlit("BD");
                }
                "BD"
            },
            G13Button::L1 => {
                proof {
                    reveal_strlit("L1");
                }
                "L1"
            },
            G13Button::L2 => {
                proof {
                    reveal_strlit("L2");
                }
                "L2"
            },
            G13Button::L3 => {
                proof {
                    reveal_strlit("L3");
                }
                "L3"
            },
            G13Button::L4 => {
                proof {
                    reveal_strlit("L4");
                }
                "L4"
            },
            G13Button::M1 => {
                proof {
                    reveal_strlit("M1");
                }
                "M1"
            },
            G13Button::M2 => {
                proof {
                    reveal_strlit("M2");
                }
                "M2"
            },
            G13Button::M3 => {
                proof {
                    reveal_strlit("M3");
                }
                "M3"
            },
            G13Button::MR => {
                proof {
                    reveal_strlit("MR");
                }
                "MR"
            },
            G13Button::LEFT => {
                proof {
                    reveal_strlit("LEFT");
                }
                "LEFT"
            },
            G13Button::DOWN => {
                proof {
                    reveal_strlit("DOWN");
                }
                "DOWN"
            },
            G13Button::TOP => {
                proof {
                    reveal_strlit("TOP");
                }
                "TOP"
            },
            G13Button::UNDEF3 => {
                proof {
                    reveal_strlit("UNDEF3");
                }
                "UNDEF3"
            },
            G13Button::LIGHT => {
                proof {
                    reveal_strlit("LIGHT");
                }
                "LIGHT"
            },
            G13Button::LIGHT2 => {
                proof {
                    reveal_strlit("LIGHT2");
                }
                "LIGHT2"
            },
            G13Button::MISCTOGGLE => {
                proof {
                    reveal_strlit("MISC_TOGGLE");
                }
                "MISC_TOGGLE"
            },
        }
    }

    /// The index and the name of this button.
    pub fn information(&self) -> (info: G13KeyInformation)
        ensures
            info.index as nat == button_index(*self),
            info.name@ == button_label(*self),
    {
        G13KeyInformation { index: self.index() as u8, name: self.label() }
    }
}

/// Every index below 40 names a button, and that button's index is the
/// index it was named by.
pub proof fn lemma_index_round_trip(i: usize)
    requires
        i < 40,
    ensures
        button_index(button_at(i)) == i,
{
}

/// Every button is the button at its own index, so no two buttons share an
/// index.
pub proof fn lemma_button_round_trip(b: G13Button)
    ensures
        button_index(b) < 40,
        button_at(button_index(b) as usize) == b,
{
}

/// Distinct buttons have distinct indices.
pub proof fn lemma_index_injective(a: G13Button, b: G13Button)
    ensures
        button_index(a) == button_index(b) <==> a == b,
{
    lemma_button_round_trip(a);
    lemma_button_round_trip(b);
}

/// The index and the name of a button, as shown in configuration and logs.
pub struct G13KeyInformation {
    pub index: u8,
    pub name: &'static str,
}

impl From<G13Button> for usize {
    fn from(b: G13Button) -> usize {
        b.index()
    }
}

impl vstd::std_specs::convert::FromSpecImpl<G13Button> for usize {
    open spec fn obeys_from_spec() -> bool {
        true
    }

    open spec fn from_spec(b: G13Button) -> usize {
        button_index(b) as usize
    }
}

/// The direction of a button transition.
#[derive(Debug, Clone, Copy, PartialEq, Eq, Structural)]
pub enum G13KeyPress {
    Pressed,
    Released,
}

/// `Pressed` for a button that is down, `Released` for one that is up.
pub open spec fn press_of(down: bool) -> G13KeyPress {
    if down {
        G13KeyPress::Pressed
    } else {
        G13KeyPress::Released
    }
}

impl From<bool> for G13KeyPress {
    fn from(b: bool) -> Self {
        if b {
            G13KeyPress::Pressed
        } else {
            G13KeyPress::Released
        }
    }
}

impl vstd::std_specs::convert::FromSpecImpl<bool> for G13KeyPress {
    open spec fn obeys_from_spec() -> bool {
        true
    }

    open spec fn from_spec(b: bool) -> G13KeyPress {
        press_of(b)
    }
}

/// One transition of one button: the unit that flows from the report tracker
/// to the binding table.
pub type G13KeyEvent = (G13Button, G13KeyPress);

/// Why reading from the keypad or injecting a key failed.
#[derive(Debug)]
pub enum G13Error {
    /// A bounded read saw no new report before its timeout; this is expected.
    Timeout,
    /// Any other USB transfer failure, with its description.
    USBError(String),
    /// The virtual keyboard refused an operation, with its description.
    UInputError(String),
}

} // verus!
