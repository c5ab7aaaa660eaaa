//! Registers that describe the size of a 32-bit value: how many bits its
//! magnitude takes, and its sign.
use vstd::prelude::*;
use vstd::std_specs::bits::u32_leading_zeros;

verus! {

/// The registers of one value, as plain integers.
pub struct Registers {
    pub exp: int,
    pub rem: int,
    pub sign: int,
}

/// Track overflow registers.
#[derive(Debug, Copy, Clone)]
pub struct OInt32 {
    exp: i32,
    rem: i32,
    sign: i32,
}

/// The magnitude of `value`, which fits 32 bits without a sign.
pub open spec fn magnitude(value: i32) -> u32 {
    if value < 0 {
        (-value) as u32
    } else {
        value as u32
    }
}

/// The number of bits that the magnitude of `value` takes: 32 less its leading
/// zeros.
pub open spec fn exponent(value: i32) -> i32 {
    (32 - u32_leading_zeros(magnitude(value))) as i32
}

/// The registers of `value`: all zero for zero; else the number of bits of the
/// magnitude, the value with those bits of the count set, and `1` or `-1`.
pub open spec fn registers(value: i32) -> Registers {
    if value == 0 {
        Registers { exp: 0, rem: 0, sign: 0 }
    } else {
        Registers {
            exp: exponent(value) as int,
            rem: (value | exponent(value)) as int,
            sign: if value > 0 {
                1
            } else {
                -1
            },
        }
    }
}

impl View for OInt32 {
    type V = Registers;

    closed spec fn view(&self) -> Registers {
        Registers { exp: self.exp as int, rem: self.rem as int, sign: self.sign as int }
    }
}

impl OInt32 {
    /// The registers of `value`.
    pub fn new(value: i32) -> (r: Self)
        ensures
            r@ == registers(value),
    {
        if value == 0 {
            return Self { exp: 0, rem: 0, sign: 0 };
        }
        let size: u32 = if value < 0 {
            (0 - value as i64) as u32
        } else {
            value as u32
        };
        proof {
            vstd::std_specs::bits::axiom_u32_leading_zeros(size);
        }
        let exp = (32 - size.leading_zeros()) as i32;
        let sign: i32 = if value > 0 {
            1
        } else {
            -1
        };
        let rem = value | exp;

        Self { exp, rem, sign }
    }

    /// Number of bits of the magnitude.
    pub fn exp(&self) -> (r: i32)
        ensures
            r == self@.exp,
    {
        self.exp
    }

    /// The value, with the bits of the count set.
    pub fn rem(&self) -> (r: i32)
        ensures
            r == self@.rem,
    {
        self.rem
    }

    /// `1`, `-1`, or `0` for zero.
    pub fn sign(&self) -> (r: i32)
        ensures
            r == self@.sign,
    {
        self.sign
    }
}

} // verus!
