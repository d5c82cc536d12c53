//! Integers of any width up to 64 bits as tokens, checked by the `arbitrary_int` crate.

use crate::events::token::EventToken;
use arbitrary_int::Number;
use vstd::arithmetic::power2::*;
use vstd::prelude::*;

verus! {

/// An unsigned integer of `N` bits.
#[derive(Debug, Clone, Copy, PartialEq, Eq)]
pub struct UInt<const N: usize> {
    value: u64,
}

/// [`Number::try_new`] on [`arbitrary_int::UInt`]: gives the value back if it fits into `N` bits,
/// and an error otherwise. Widths without bits, or of more than 64 bits, do not exist.
#[verifier::external_body]
fn try_new<const N: usize>(value: u64) -> (result: Result<u64, ()>)
    requires
        1 <= N <= 64,
    ensures
        result is Ok <==> value < pow2(N as nat),
        result matches Ok(same) ==> same == value,
{
    match arbitrary_int::UInt::<u64, N>::try_new(value) {
        Ok(number) => Ok(number.value()),
        Err(_) => Err(()),
    }
}

impl<const N: usize> UInt<N> {
    /// The value of the integer.
    pub closed spec fn spec_value(&self) -> u64 {
        self.value
    }

    /// The integer with the given value, or `None` if `N` bits do not hold it.
    pub fn try_new(value: u64) -> (result: Option<UInt<N>>)
        requires
            1 <= N <= 64,
        ensures
            match result {
                Some(number) => value < pow2(N as nat) && number.spec_value() == value,
                None => value >= pow2(N as nat),
            },
    {
        match try_new::<N>(value) {
            Ok(value) => Some(UInt { value }),
            Err(_) => None,
        }
    }

    /// The value of the integer.
    pub fn value(&self) -> (value: u64)
        ensures
            value == self.spec_value(),
    {
        self.value
    }
}

impl<const N: usize> EventToken for UInt<N> {
    const USED_BITS: u32 = N as u32;

    open spec fn is_token(&self) -> bool {
        1 <= N <= 64 && self.spec_value() < pow2(N as nat)
    }

    open spec fn raw_token(&self) -> u64 {
        self.spec_value()
    }

    open spec fn is_raw_token(data: u64) -> bool {
        1 <= N <= 64 && data < pow2(N as nat)
    }

    closed spec fn token_of(data: u64) -> Self {
        UInt { value: data }
    }

    proof fn lemma_round_trip(&self) {
    }

    fn as_raw_token(&self) -> (raw: u64) {
        self.value
    }

    fn from_raw_token(data: u64) -> (token: Self) {
        match try_new::<N>(data) {
            Ok(value) => UInt { value },
            Err(_) => UInt { value: data },
        }
    }
}

} // verus!
