//! Small value types shared by the expression nodes.

use crate::natural::radix_text;
use vstd::prelude::*;

verus! {

/// The supported widths of a fixed-width unsigned integer.
#[derive(Debug, Clone, Copy, PartialEq, Eq, Hash, Structural)]
pub enum UBitwidth {
    B8,
    B16,
    B32,
}

impl UBitwidth {
    /// The number of bits of this width.
    pub open spec fn bits(self) -> nat {
        match self {
            UBitwidth::B8 => 8,
            UBitwidth::B16 => 16,
            UBitwidth::B32 => 32,
        }
    }

    /// The number of bits of this width.
    pub fn to_usize(self) -> (n: usize)
        ensures
            n == self.bits(),
    {
        match self {
            UBitwidth::B8 => 8,
            UBitwidth::B16 => 16,
            UBitwidth::B32 => 32,
        }
    }

    /// The number of bits of this width, written in decimal.
    pub open spec fn text(self) -> Seq<char> {
        radix_text(self.bits(), 10)
    }

    /// The number of bits of this width, written in decimal.
    pub fn to_str(self) -> (text: &'static str)
        ensures
            text@ == self.text(),
    {
        proof {
            reveal_with_fuel(radix_text, 2);
            reveal_strlit("8");
            reveal_strlit("16");
            reveal_strlit("32");
        }
        match self {
            UBitwidth::B8 => {
                assert("8"@ =~= radix_text(8, 10));
                "8"
            },
            UBitwidth::B16 => {
                assert("16"@ =~= radix_text(16, 10));
                "16"
            },
            UBitwidth::B32 => {
                assert("32"@ =~= radix_text(32, 10));
                "32"
            },
        }
    }
}

/// The name of a variable of the program.
#[derive(Debug, Clone, PartialEq, Eq, Hash)]
pub struct Identifier<'ast> {
    pub id: &'ast str,
}

/// The name of a field of a struct.
pub type MemberId = String;

/// The identity of a function of the program.
#[derive(Debug, Clone, PartialEq, Eq, Hash)]
pub struct FunctionKey<'ast> {
    pub id: &'ast str,
}

} // verus!
