//! A single bit and its conversions from the integer types.

use vstd::prelude::*;
use vstd::std_specs::convert::FromSpecImpl;
use vstd::string::StringExecFns;

verus! {

/// A single binary digit.
#[derive(Debug, PartialEq, Eq, Clone, Copy, Structural)]
pub enum Bit {
    Zero,
    One,
}

impl Bit {
    /// The bit as a truth value: `One` is `true`.
    pub open spec fn as_bool(self) -> bool {
        self == Bit::One
    }

    /// The bit that stands for a truth value.
    pub open spec fn of_bool(b: bool) -> Bit {
        if b {
            Bit::One
        } else {
            Bit::Zero
        }
    }

    /// Whether the bit is set.
    pub fn is_one(self) -> (b: bool)
        ensures
            b == self.as_bool(),
    {
        match self {
            Bit::One => true,
            Bit::Zero => false,
        }
    }

    /// The bit for a truth value.
    pub fn from_bool(b: bool) -> (bit: Bit)
        ensures
            bit == Bit::of_bool(b),
            bit.as_bool() == b,
    {
        if b {
            Bit::One
        } else {
            Bit::Zero
        }
    }

    /// The bit as text: `0` or `1`.
    pub fn to_string(&self) -> (text: String)
        ensures
            text@ == seq![
                if self.as_bool() {
                    '1'
                } else {
                    '0'
                },
            ],
    {
        proof {
            reveal_strlit("0");
            reveal_strlit("1");
        }
        let mut text = String::new();
        match self {
            Bit::One => text.append("1"),
            Bit::Zero => text.append("0"),
        }
        assert(text@ =~= seq![
            if self.as_bool() {
                '1'
            } else {
                '0'
            },
        ]);
        text
    }
}

/// Zero maps to `Bit::Zero`, every other `u8` to `Bit::One`.
impl From<u8> for Bit {
    fn from(value: u8) -> (bit: Bit) {
        if value == 0 {
            Bit::Zero
        } else {
            Bit::One
        }
    }
}

impl FromSpecImpl<u8> for Bit {
    open spec fn obeys_from_spec() -> bool {
        true
    }

    open spec fn from_spec(value: u8) -> Bit {
        if value == 0 {
            Bit::Zero
        } else {
            Bit::One
        }
    }
}

/// Zero maps to `Bit::Zero`, every other `u16` to `Bit::One`.
impl From<u16> for Bit {
    fn from(value: u16) -> (bit: Bit) {
        if value == 0 {
            Bit::Zero
        } else {
            Bit::One
        }
    }
}

impl FromSpecImpl<u16> for Bit {
    open spec fn obeys_from_spec() -> bool {
        true
    }

    open spec fn from_spec(value: u16) -> Bit {
        if value == 0 {
            Bit::Zero
        } else {
            Bit::One
        }
    }
}

/// Zero maps to `Bit::Zero`, every other `u32` to `Bit::One`.
impl From<u32> for Bit {
    fn from(value: u32) -> (bit: Bit) {
        if value == 0 {
            Bit::Zero
        } else {
            Bit::One
        }
    }
}

impl FromSpecImpl<u32> for Bit {
    open spec fn obeys_from_spec() -> bool {
        true
    }

    open spec fn from_spec(value: u32) -> Bit {
        if value == 0 {
            Bit::Zero
        } else {
            Bit::One
        }
    }
}

/// Zero maps to `Bit::Zero`, every other `u64` to `Bit::One`.
impl From<u64> for Bit {
    fn from(value: u64) -> (bit: Bit) {
        if value == 0 {
            Bit::Zero
        } else {
            Bit::One
        }
    }
}

impl FromSpecImpl<u64> for Bit {
    open spec fn obeys_from_spec() -> bool {
        true
    }

    open spec fn from_spec(value: u64) -> Bit {
        if value == 0 {
            Bit::Zero
        } else {
            Bit::One
        }
    }
}

/// Zero maps to `Bit::Zero`, every other `u128` to `Bit::One`.
impl From<u128> for Bit {
    fn from(value: u128) -> (bit: Bit) {
        if value == 0 {
            Bit::Zero
        } else {
            Bit::One
        }
    }
}

impl FromSpecImpl<u128> for Bit {
    open spec fn obeys_from_spec() -> bool {
        true
    }

    open spec fn from_spec(value: u128) -> Bit {
        if value == 0 {
            Bit::Zero
        } else {
            Bit::One
        }
    }
}

/// Zero maps to `Bit::Zero`, every other `usize` to `Bit::One`.
impl From<usize> for Bit {
    fn from(value: usize) -> (bit: Bit) {
        if value == 0 {
            Bit::Zero
        } else {
            Bit::One
        }
    }
}

impl FromSpecImpl<usize> for Bit {
    open spec fn obeys_from_spec() -> bool {
        true
    }

    open spec fn from_spec(value: usize) -> Bit {
        if value == 0 {
            Bit::Zero
        } else {
            Bit::One
        }
    }
}

/// Zero maps to `Bit::Zero`, every other `i8` to `Bit::One`.
impl From<i8> for Bit {
    fn from(value: i8) -> (bit: Bit) {
        if value == 0 {
            Bit::Zero
        } else {
            Bit::One
        }
    }
}

impl FromSpecImpl<i8> for Bit {
    open spec fn obeys_from_spec() -> bool {
        true
    }

    open spec fn from_spec(value: i8) -> Bit {
        if value == 0 {
            Bit::Zero
        } else {
            Bit::One
        }
    }
}

/// Zero maps to `Bit::Zero`, every other `i16` to `Bit::One`.
impl From<i16> for Bit {
    fn from(value: i16) -> (bit: Bit) {
        if value == 0 {
            Bit::Zero
        } else {
            Bit::One
        }
    }
}

impl FromSpecImpl<i16> for Bit {
    open spec fn obeys_from_spec() -> bool {
        true
    }

    open spec fn from_spec(value: i16) -> Bit {
        if value == 0 {
            Bit::Zero
        } else {
            Bit::One
        }
    }
}

/// Zero maps to `Bit::Zero`, every other `i32` to `Bit::One`.
impl From<i32> for Bit {
    fn from(value: i32) -> (bit: Bit) {
        if value == 0 {
            Bit::Zero
        } else {
            Bit::One
        }
    }
}

impl FromSpecImpl<i32> for Bit {
    open spec fn obeys_from_spec() -> bool {
        true
    }

    open spec fn from_spec(value: i32) -> Bit {
        if value == 0 {
            Bit::Zero
        } else {
            Bit::One
        }
    }
}

/// Zero maps to `Bit::Zero`, every other `i64` to `Bit::One`.
impl From<i64> for Bit {
    fn from(value: i64) -> (bit: Bit) {
        if value == 0 {
            Bit::Zero
        } else {
            Bit::One
        }
    }
}

impl FromSpecImpl<i64> for Bit {
    open spec fn obeys_from_spec() -> bool {
        true
    }

    open spec fn from_spec(value: i64) -> Bit {
        if value == 0 {
            Bit::Zero
        } else {
            Bit::One
        }
    }
}

/// Zero maps to `Bit::Zero`, every other `i128` to `Bit::One`.
impl From<i128> for Bit {
    fn from(value: i128) -> (bit: Bit) {
        if value == 0 {
            Bit::Zero
        } else {
            Bit::One
        }
    }
}

impl FromSpecImpl<i128> for Bit {
    open spec fn obeys_from_spec() -> bool {
        true
    }

    open spec fn from_spec(value: i128) -> Bit {
        if value == 0 {
            Bit::Zero
        } else {
            Bit::One
        }
    }
}

/// Zero maps to `Bit::Zero`, every other `isize` to `Bit::One`.
impl From<isize> for Bit {
    fn from(value: isize) -> (bit: Bit) {
        if value == 0 {
            Bit::Zero
        } else {
            Bit::One
        }
    }
}

impl FromSpecImpl<isize> for Bit {
    open spec fn obeys_from_spec() -> bool {
        true
    }

    open spec fn from_spec(value: isize) -> Bit {
        if value == 0 {
            Bit::Zero
        } else {
            Bit::One
        }
    }
}

} // verus!
