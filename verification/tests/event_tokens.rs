use std::fmt::Debug;
use virtio_devices::events::uint::UInt;
use virtio_devices::events::token::EventToken;
use virtio_devices::events::layout::{
    event_token_inner, variant_bits, DeriveError, TokenArm, TokenLayout, TokenLayoutError,
};

fn layout(fields: &[Option<u32>]) -> TokenLayout {
    TokenLayout::new(fields.to_vec()).unwrap()
}

#[derive(PartialEq, Debug)]
enum Token {
    Alpha,
    Beta,
    Gamma(u32),
    Delta,
}

fn token_layout() -> TokenLayout {
    layout(&[None, None, Some(u32::USED_BITS), None])
}

impl EventToken for Token {
    const USED_BITS: u32 = 34;

    // The ghost half of the trait has no meaning outside verified code.
    fn is_token(&self) -> bool {
        true
    }

    fn raw_token(&self) -> u64 {
        self.as_raw_token()
    }

    fn is_raw_token(_data: u64) -> bool {
        true
    }

    fn token_of(data: u64) -> Self {
        Self::from_raw_token(data)
    }

    fn lemma_round_trip(&self) {}

    fn as_raw_token(&self) -> u64 {
        match self {
            Token::Alpha => token_layout().pack(0, None),
            Token::Beta => token_layout().pack(1, None),
            Token::Gamma(data) => token_layout().pack(2, Some(data.as_raw_token())),
            Token::Delta => token_layout().pack(3, None),
        }
    }

    fn from_raw_token(data: u64) -> Self {
        match token_layout().unpack(data) {
            (0, None) => Token::Alpha,
            (1, None) => Token::Beta,
            (2, Some(data)) => Token::Gamma(u32::from_raw_token(data)),
            (3, None) => Token::Delta,
            _ => unreachable!(),
        }
    }
}

#[test]
fn event_token_derive() {
    // An enumeration without variants can be laid out, though it has no token.
    let empty = layout(&[]);
    assert_eq!(empty.used_bits(), 0);

    assert_eq!(Token::from_raw_token(Token::Alpha.as_raw_token()), Token::Alpha);
    assert_eq!(Token::from_raw_token(Token::Beta.as_raw_token()), Token::Beta);
    assert_eq!(Token::from_raw_token(Token::Gamma(55).as_raw_token()), Token::Gamma(55));
    assert_eq!(Token::from_raw_token(Token::Delta.as_raw_token()), Token::Delta);
    assert_eq!(token_layout().used_bits(), Token::USED_BITS);
}

fn assert_roundtrip<T: EventToken + PartialEq + Debug>(t: T) {
    assert_eq!(T::from_raw_token(t.as_raw_token()), t);
}

#[derive(PartialEq, Debug, Copy, Clone)]
enum TokL2 {
    A(u32),
    B(u32),
}

impl EventToken for TokL2 {
    const USED_BITS: u32 = 33;

    // The ghost half of the trait has no meaning outside verified code.
    fn is_token(&self) -> bool {
        true
    }

    fn raw_token(&self) -> u64 {
        self.as_raw_token()
    }

    fn is_raw_token(_data: u64) -> bool {
        true
    }

    fn token_of(data: u64) -> Self {
        Self::from_raw_token(data)
    }

    fn lemma_round_trip(&self) {}

    fn as_raw_token(&self) -> u64 {
        let layout = layout(&[Some(u32::USED_BITS), Some(u32::USED_BITS)]);
        match self {
            TokL2::A(data) => layout.pack(0, Some(data.as_raw_token())),
            TokL2::B(data) => layout.pack(1, Some(data.as_raw_token())),
        }
    }

    fn from_raw_token(data: u64) -> Self {
        let layout = layout(&[Some(u32::USED_BITS), Some(u32::USED_BITS)]);
        match layout.unpack(data) {
            (0, Some(data)) => TokL2::A(u32::from_raw_token(data)),
            (1, Some(data)) => TokL2::B(u32::from_raw_token(data)),
            _ => unreachable!(),
        }
    }
}

#[derive(PartialEq, Debug, Copy, Clone)]
enum TokL3 {
    A(TokL2),
    B(TokL2),
}

impl EventToken for TokL3 {
    const USED_BITS: u32 = 34;

    // The ghost half of the trait has no meaning outside verified code.
    fn is_token(&self) -> bool {
        true
    }

    fn raw_token(&self) -> u64 {
        self.as_raw_token()
    }

    fn is_raw_token(_data: u64) -> bool {
        true
    }

    fn token_of(data: u64) -> Self {
        Self::from_raw_token(data)
    }

    fn lemma_round_trip(&self) {}

    fn as_raw_token(&self) -> u64 {
        let layout = layout(&[Some(TokL2::USED_BITS), Some(TokL2::USED_BITS)]);
        match self {
            TokL3::A(data) => layout.pack(0, Some(data.as_raw_token())),
            TokL3::B(data) => layout.pack(1, Some(data.as_raw_token())),
        }
    }

    fn from_raw_token(data: u64) -> Self {
        let layout = layout(&[Some(TokL2::USED_BITS), Some(TokL2::USED_BITS)]);
        match layout.unpack(data) {
            (0, Some(data)) => TokL3::A(TokL2::from_raw_token(data)),
            (1, Some(data)) => TokL3::B(TokL2::from_raw_token(data)),
            _ => unreachable!(),
        }
    }
}

#[derive(PartialEq, Debug, Copy, Clone)]
enum TokL1 {
    A,
    B(TokL2),
    C(TokL3),
}

impl EventToken for TokL1 {
    const USED_BITS: u32 = 36;

    // The ghost half of the trait has no meaning outside verified code.
    fn is_token(&self) -> bool {
        true
    }

    fn raw_token(&self) -> u64 {
        self.as_raw_token()
    }

    fn is_raw_token(_data: u64) -> bool {
        true
    }

    fn token_of(data: u64) -> Self {
        Self::from_raw_token(data)
    }

    fn lemma_round_trip(&self) {}

    fn as_raw_token(&self) -> u64 {
        let layout = layout(&[None, Some(TokL2::USED_BITS), Some(TokL3::USED_BITS)]);
        match self {
            TokL1::A => layout.pack(0, None),
            TokL1::B(data) => layout.pack(1, Some(data.as_raw_token())),
            TokL1::C(data) => layout.pack(2, Some(data.as_raw_token())),
        }
    }

    fn from_raw_token(data: u64) -> Self {
        let layout = layout(&[None, Some(TokL2::USED_BITS), Some(TokL3::USED_BITS)]);
        match layout.unpack(data) {
            (0, None) => TokL1::A,
            (1, Some(data)) => TokL1::B(TokL2::from_raw_token(data)),
            (2, Some(data)) => TokL1::C(TokL3::from_raw_token(data)),
            _ => unreachable!(),
        }
    }
}

#[test]
fn event_token_derive_nested() {
    assert_roundtrip(TokL1::A);
    assert_roundtrip(TokL2::A(0));
    assert_roundtrip(TokL2::B(21432));
    assert_roundtrip(TokL3::A(TokL2::A(0)));
    assert_roundtrip(TokL1::B(TokL2::B(7)));
    assert_roundtrip(TokL1::C(TokL3::B(TokL2::B(u32::MAX))));
}

#[test]
fn event_token_derive_overflow() {
    assert_roundtrip(TokL2::A(u32::MAX));
    assert_eq!(TokL2::A(u32::MAX).as_raw_token(), (u32::MAX as u64) << 1);
}

#[test]
fn one_level() {
    let u33_max = UInt::<33>::try_new((1 << 33) - 1).unwrap();
    let u63_max = UInt::<63>::try_new((1 << 63) - 1).unwrap();
    let layout = layout(&[Some(UInt::<33>::USED_BITS), Some(UInt::<63>::USED_BITS)]);
    assert_eq!(
        layout.pack(0, Some(u33_max.as_raw_token())),
        1u64 << 33 | (u32::MAX as u64) << 1
    );
    assert_eq!(layout.pack(1, Some(u63_max.as_raw_token())), u64::MAX);
}

#[test]
fn two_levels() {
    let l1 = layout(&[Some(UInt::<33>::USED_BITS), Some(UInt::<62>::USED_BITS)]);
    let l2 = layout(&[Some(l1.used_bits()), Some(l1.used_bits())]);
    let zero = UInt::<33>::try_new(0).unwrap();
    let u62_max = UInt::<62>::try_new((1 << 62) - 1).unwrap();

    assert_eq!(l2.pack(0, Some(l1.pack(0, Some(zero.as_raw_token())))), 0);
    assert_eq!(l2.pack(1, Some(l1.pack(1, Some(u62_max.as_raw_token())))), u64::MAX);
}

#[test]
fn integers_of_any_width() {
    assert_eq!(UInt::<7>::try_new(127).unwrap().value(), 127);
    assert!(UInt::<7>::try_new(128).is_none());
    assert_eq!(UInt::<64>::try_new(u64::MAX).unwrap().value(), u64::MAX);
    assert_eq!(UInt::<1>::from_raw_token(1).value(), 1);
    assert_eq!(UInt::<9>::USED_BITS, 9);
    assert_roundtrip(UInt::<12>::try_new(4095).unwrap());
}

#[test]
fn basic_tokens() {
    assert_roundtrip(usize::MAX);
    assert_roundtrip(u64::MAX);
    assert_roundtrip(u32::MAX);
    assert_roundtrip(u16::MAX);
    assert_roundtrip(u8::MAX);
    assert_roundtrip(());
    assert_eq!(u16::from_raw_token(0x1_2345), 0x2345);
    assert_eq!(u8::from_raw_token(0x1ff), 0xff);
    assert_eq!(u32::from_raw_token(0x7_0000_0001), 1);
    assert_eq!(u32::USED_BITS, 32);
    assert_eq!(<()>::USED_BITS, 0);
}

#[test]
fn reserved_bits() {
    assert_eq!(variant_bits(0), 0);
    assert_eq!(variant_bits(1), 0);
    assert_eq!(variant_bits(2), 1);
    assert_eq!(variant_bits(3), 2);
    assert_eq!(variant_bits(4), 2);
    assert_eq!(variant_bits(5), 3);
    assert_eq!(variant_bits(256), 8);
    assert_eq!(variant_bits(257), 9);
    assert_eq!(layout(&[None, None, None]).variant_mask(), 3);
    assert_eq!(layout(&[None]).variant_mask(), 0);
    assert_eq!(layout(&[None, None, None, None, None]).index_bits(), 3);
}

#[test]
fn data_that_is_too_big() {
    assert!(TokenLayout::new(vec![Some(63), Some(63)]).is_ok());
    assert!(matches!(
        TokenLayout::new(vec![None, Some(64)]),
        Err(TokenLayoutError::InnerTypeTooBig { variant: 1, max_allowed_bits: 63 })
    ));
    assert!(matches!(
        TokenLayout::new(vec![Some(62), Some(63), Some(64)]),
        Err(TokenLayoutError::InnerTypeTooBig { variant: 1, max_allowed_bits: 62 })
    ));
    assert!(TokenLayout::new(vec![Some(62), Some(62), Some(62), Some(62)]).is_ok());
    assert!(TokenLayout::new(vec![Some(64)]).is_ok());
}

#[test]
fn packed_tokens_differ_and_come_back() {
    let layout = layout(&[None, Some(8), Some(4)]);
    assert_eq!(layout.used_bits(), 10);
    assert_eq!(layout.pack(0, None), 0);
    assert_eq!(layout.pack(1, Some(0)), 1);
    assert_eq!(layout.pack(1, Some(255)), 1021);
    assert_eq!(layout.pack(2, Some(15)), 62);
    assert_eq!(layout.unpack(0), (0, None));
    assert_eq!(layout.unpack(1021), (1, Some(255)));
    assert_eq!(layout.unpack(62), (2, Some(15)));
}

#[test]
fn plans_for_enumerations() {
    let plan = event_token_inner(true, &[0, 0, 1, 0]).unwrap();
    assert_eq!((plan.variant_bits, plan.variant_mask, plan.max_allowed_bits), (2, 3, 62));
    assert_eq!(
        plan.arms,
        vec![
            TokenArm { index: 0, shift: None },
            TokenArm { index: 1, shift: None },
            TokenArm { index: 2, shift: Some(2) },
            TokenArm { index: 3, shift: None },
        ]
    );
    let plan = event_token_inner(true, &[]).unwrap();
    assert_eq!((plan.variant_bits, plan.variant_mask, plan.max_allowed_bits), (0, 0, 64));
    assert!(matches!(event_token_inner(false, &[]), Err(DeriveError::NotAnEnum)));
    assert!(matches!(
        event_token_inner(true, &[1, 2, 3]),
        Err(DeriveError::TooManyFields { variant: 1 })
    ));
}
