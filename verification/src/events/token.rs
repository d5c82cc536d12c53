//! Tokens that travel through an epoll instance as 64 bits.

use vstd::arithmetic::power2::*;
use vstd::prelude::*;

verus! {

/// Associates events with values of a type of their own.
///
/// A token is handed to epoll as a `u64` and has to be recognisable in what epoll hands back.
/// Enumerations whose variants carry at most one token each are packed as
/// [`crate::events::layout`] describes.
pub trait EventToken: Sized {
    /// The number of bits it takes to store a token of this type.
    const USED_BITS: u32;

    /// Whether this is a value that a token of the type can have.
    spec fn is_token(&self) -> bool;

    /// The bits that stand for the token.
    spec fn raw_token(&self) -> u64;

    /// Whether `data` can be turned into a token.
    spec fn is_raw_token(data: u64) -> bool;

    /// The token that `data` is turned into.
    spec fn token_of(data: u64) -> Self;

    /// Every token survives the way through its bits, which are no more than announced.
    proof fn lemma_round_trip(&self)
        requires
            self.is_token(),
        ensures
            Self::is_raw_token(self.raw_token()),
            Self::token_of(self.raw_token()) == *self,
            Self::USED_BITS <= 64,
            self.raw_token() < pow2(Self::USED_BITS as nat),
    ;

    /// Converts this token into a `u64` that can be turned back into a token via
    /// `from_raw_token`.
    fn as_raw_token(&self) -> (raw: u64)
        requires
            self.is_token(),
        ensures
            raw == self.raw_token(),
    ;

    /// Converts a raw token as returned from `as_raw_token` back into a token.
    fn from_raw_token(data: u64) -> (token: Self)
        requires
            Self::is_raw_token(data),
        ensures
            token == Self::token_of(data),
            token.is_token(),
    ;
}

/// The number of values that a `usize` can have.
proof fn lemma_usize_range(value: usize)
    ensures
        usize::BITS <= 64,
        value < pow2(usize::BITS as nat),
{
    lemma2_to64();
}

impl EventToken for usize {
    const USED_BITS: u32 = usize::BITS;

    open spec fn is_token(&self) -> bool {
        true
    }

    open spec fn raw_token(&self) -> u64 {
        *self as u64
    }

    open spec fn is_raw_token(data: u64) -> bool {
        true
    }

    open spec fn token_of(data: u64) -> Self {
        data as usize
    }

    proof fn lemma_round_trip(&self) {
        lemma_usize_range(*self);
    }

    fn as_raw_token(&self) -> (raw: u64) {
        *self as u64
    }

    fn from_raw_token(data: u64) -> (token: Self) {
        #[verifier::truncate]
        (data as usize)
    }
}

impl EventToken for u64 {
    const USED_BITS: u32 = 64;

    open spec fn is_token(&self) -> bool {
        true
    }

    open spec fn raw_token(&self) -> u64 {
        *self
    }

    open spec fn is_raw_token(data: u64) -> bool {
        true
    }

    open spec fn token_of(data: u64) -> Self {
        data
    }

    proof fn lemma_round_trip(&self) {
        lemma2_to64();
    }

    fn as_raw_token(&self) -> (raw: u64) {
        *self
    }

    fn from_raw_token(data: u64) -> (token: Self) {
        data
    }
}

impl EventToken for u32 {
    const USED_BITS: u32 = 32;

    open spec fn is_token(&self) -> bool {
        true
    }

    open spec fn raw_token(&self) -> u64 {
        *self as u64
    }

    open spec fn is_raw_token(data: u64) -> bool {
        true
    }

    open spec fn token_of(data: u64) -> Self {
        data as u32
    }

    proof fn lemma_round_trip(&self) {
        lemma2_to64();
    }

    fn as_raw_token(&self) -> (raw: u64) {
        *self as u64
    }

    fn from_raw_token(data: u64) -> (token: Self) {
        #[verifier::truncate]
        (data as u32)
    }
}

impl EventToken for u16 {
    const USED_BITS: u32 = 16;

    open spec fn is_token(&self) -> bool {
        true
    }

    open spec fn raw_token(&self) -> u64 {
        *self as u64
    }

    open spec fn is_raw_token(data: u64) -> bool {
        true
    }

    open spec fn token_of(data: u64) -> Self {
        data as u16
    }

    proof fn lemma_round_trip(&self) {
        lemma2_to64();
    }

    fn as_raw_token(&self) -> (raw: u64) {
        *self as u64
    }

    fn from_raw_token(data: u64) -> (token: Self) {
        #[verifier::truncate]
        (data as u16)
    }
}

impl EventToken for u8 {
    const USED_BITS: u32 = 8;

    open spec fn is_token(&self) -> bool {
        true
    }

    open spec fn raw_token(&self) -> u64 {
        *self as u64
    }

    open spec fn is_raw_token(data: u64) -> bool {
        true
    }

    open spec fn token_of(data: u64) -> Self {
        data as u8
    }

    proof fn lemma_round_trip(&self) {
        lemma2_to64();
    }

    fn as_raw_token(&self) -> (raw: u64) {
        *self as u64
    }

    fn from_raw_token(data: u64) -> (token: Self) {
        #[verifier::truncate]
        (data as u8)
    }
}

impl EventToken for () {
    const USED_BITS: u32 = 0;

    open spec fn is_token(&self) -> bool {
        true
    }

    open spec fn raw_token(&self) -> u64 {
        0
    }

    open spec fn is_raw_token(data: u64) -> bool {
        true
    }

    open spec fn token_of(data: u64) -> Self {
        ()
    }

    proof fn lemma_round_trip(&self) {
        lemma2_to64();
    }

    fn as_raw_token(&self) -> (raw: u64) {
        0
    }

    fn from_raw_token(data: u64) -> (token: Self) {
        ()
    }
}

} // verus!
