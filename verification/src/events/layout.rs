//! How an enumeration is packed into the 64 bits of an event token.
//!
//! 1. The lowest `ceil(log2(n))` bits are reserved, where `n` is the number of variants.
//! 2. The reserved bits store the index of the variant.
//! 3. If the variant carries data, the remaining bits store the token of that data.
//!
//! To unpack, the reserved bits select the variant and the remaining bits are its data.

use vstd::arithmetic::div_mod::*;
use vstd::arithmetic::mul::*;
use vstd::arithmetic::power2::*;
use vstd::bits::*;
use vstd::prelude::*;

verus! {

/// Whether `bits` is the smallest number of bits that tells `count` values apart.
pub open spec fn distinguishes(bits: nat, count: nat) -> bool {
    &&& count <= pow2(bits)
    &&& bits > 0 ==> pow2((bits - 1) as nat) < count
}

/// The largest number of variants whose index can be reserved.
pub const MAX_VARIANTS: u64 = 0x8000_0000_0000_0000;

/// The number of bits needed to store the index of one of `num_variants` variants: the logarithm
/// of their number to the base two, rounded up.
pub fn variant_bits(num_variants: usize) -> (bits: u32)
    requires
        num_variants <= MAX_VARIANTS,
    ensures
        distinguishes(bits as nat, num_variants as nat),
        bits <= 63,
{
    let mut bits: u32 = 0;
    let mut reach: u64 = 1;
    proof {
        lemma2_to64();
    }
    while reach < num_variants as u64
        invariant
            num_variants <= MAX_VARIANTS,
            bits <= 63,
            reach == pow2(bits as nat),
            bits > 0 ==> pow2((bits - 1) as nat) < num_variants,
        decreases 64 - bits,
    {
        proof {
            lemma_pow2_unfold((bits + 1) as nat);
            lemma_pow2_exceeds(bits as nat, num_variants as nat);
        }
        reach = reach * 2;
        bits += 1;
    }
    bits
}

/// A power of two below a number of variants has an exponent below 63.
proof fn lemma_pow2_exceeds(bits: nat, count: nat)
    requires
        pow2(bits) < count <= MAX_VARIANTS,
    ensures
        bits < 63,
        pow2(bits) * 2 <= MAX_VARIANTS,
{
    lemma2_to64();
    lemma2_to64_rest();
    if bits >= 63 {
        if bits > 63 {
            lemma_pow2_strictly_increases(63, bits);
        }
        assert(false);
    }
    lemma_pow2_unfold((bits + 1) as nat);
    if bits + 1 < 63 {
        lemma_pow2_strictly_increases((bits + 1) as nat, 63);
    }
}

/// No two numbers of bits are the smallest for the same number of values.
pub proof fn lemma_distinguishes_unique(a: nat, b: nat, count: nat)
    requires
        distinguishes(a, count),
        distinguishes(b, count),
    ensures
        a == b,
{
    if a < b {
        if a < b - 1 {
            lemma_pow2_strictly_increases(a, (b - 1) as nat);
        }
    } else if b < a {
        if b < a - 1 {
            lemma_pow2_strictly_increases(b, (a - 1) as nat);
        }
    }
}

/// Why an enumeration cannot be packed.
#[derive(Debug, Clone, Copy, PartialEq, Eq, Structural)]
pub enum TokenLayoutError {
    /// The data of a variant is too big.
    InnerTypeTooBig {
        /// The index of the first such variant.
        variant: usize,
        /// The number of bits that the data may use at most, because of the number of variants.
        max_allowed_bits: u32,
    },
}

/// The layout of an enumeration whose variants carry at most one token each.
pub struct TokenLayout {
    fields: Vec<Option<u32>>,
    index_bits: u32,
}

/// The largest number of bits that the data of a variant uses.
pub open spec fn widest_field(fields: Seq<Option<u32>>) -> nat
    decreases fields.len(),
{
    if fields.len() == 0 {
        0
    } else {
        let rest = widest_field(fields.drop_last());
        match fields.last() {
            Some(bits) => if bits as nat > rest {
                bits as nat
            } else {
                rest
            },
            None => rest,
        }
    }
}

/// Whether the data of a variant needs more than `allowed` bits.
pub open spec fn field_exceeds(field: Option<u32>, allowed: int) -> bool {
    field matches Some(bits) && bits > allowed
}

impl TokenLayout {
    /// For each variant, the number of bits its data uses if it carries data.
    pub closed spec fn spec_fields(&self) -> Seq<Option<u32>> {
        self.fields@
    }

    /// The number of bits that hold the index of the variant.
    pub closed spec fn spec_index_bits(&self) -> nat {
        self.index_bits as nat
    }

    /// The index takes no more bits than needed and leaves enough for the data of every variant.
    pub open spec fn wf(&self) -> bool {
        &&& distinguishes(self.spec_index_bits(), self.spec_fields().len())
        &&& self.spec_index_bits() <= 63
        &&& forall|i: int|
            0 <= i < self.spec_fields().len() ==> !field_exceeds(
                #[trigger] self.spec_fields()[i],
                64 - self.spec_index_bits(),
            )
    }

    /// Whether `data` is what the variant with the given index can carry.
    pub open spec fn carries(&self, index: int, data: Option<u64>) -> bool {
        &&& 0 <= index < self.spec_fields().len()
        &&& match (self.spec_fields()[index], data) {
            (None, None) => true,
            (Some(bits), Some(data)) => data < pow2(bits as nat),
            _ => false,
        }
    }

    /// The token for a variant and its data.
    pub open spec fn packed(&self, index: int, data: Option<u64>) -> int {
        match data {
            None => index,
            Some(data) => index + data * pow2(self.spec_index_bits()),
        }
    }

    /// The index of the variant that a token selects.
    pub open spec fn selected(&self, raw: u64) -> int {
        raw as int % pow2(self.spec_index_bits()) as int
    }

    /// The data that a token carries for the variant it selects.
    pub open spec fn carried(&self, raw: u64) -> Option<int> {
        match self.spec_fields()[self.selected(raw)] {
            None => None,
            Some(_) => Some(raw as int / pow2(self.spec_index_bits()) as int),
        }
    }

    /// The layout of an enumeration with one variant for each entry of `fields`, which gives the
    /// number of bits that the data of the variant uses, or `None` if it carries no data.
    ///
    /// An enumeration with 2 variants can have at most 63 bits of data, one with 3 or 4 variants
    /// at most 62.
    pub fn new(fields: Vec<Option<u32>>) -> (result: Result<TokenLayout, TokenLayoutError>)
        requires
            fields@.len() <= MAX_VARIANTS,
        ensures
            match result {
                Ok(layout) => layout.wf() && layout.spec_fields() == fields@,
                Err(TokenLayoutError::InnerTypeTooBig { variant, max_allowed_bits }) => {
                    &&& max_allowed_bits <= 64
                    &&& distinguishes((64 - max_allowed_bits) as nat, fields@.len())
                    &&& variant < fields@.len()
                    &&& field_exceeds(fields@[variant as int], max_allowed_bits as int)
                    &&& forall|i: int|
                        0 <= i < variant ==> !field_exceeds(
                            #[trigger] fields@[i],
                            max_allowed_bits as int,
                        )
                },
            },
            forall|bits: nat| #[trigger]
                distinguishes(bits, fields@.len()) ==> (result is Err <==> exists|i: int|
                    0 <= i < fields@.len() && field_exceeds(#[trigger] fields@[i], 64 - bits)),
    {
        let index_bits: u32 = variant_bits(fields.len());
        proof {
            assert forall|bits: nat| #[trigger] distinguishes(bits, fields@.len()) implies bits
                == index_bits by {
                lemma_distinguishes_unique(bits, index_bits as nat, fields@.len());
            }
        }
        let max_allowed_bits: u32 = 64 - index_bits;
        let mut i: usize = 0;
        while i < fields.len()
            invariant
                i <= fields@.len(),
                index_bits <= 63,
                max_allowed_bits == 64 - index_bits,
                distinguishes(index_bits as nat, fields@.len()),
                forall|bits: nat| #[trigger]
                    distinguishes(bits, fields@.len()) ==> bits == index_bits,
                forall|j: int|
                    0 <= j < i ==> !field_exceeds(#[trigger] fields@[j], max_allowed_bits as int),
            decreases fields@.len() - i,
        {
            if let Some(bits) = fields[i] {
                if bits > max_allowed_bits {
                    assert(field_exceeds(fields@[i as int], max_allowed_bits as int));
                    return Err(TokenLayoutError::InnerTypeTooBig { variant: i, max_allowed_bits });
                }
            }
            i += 1;
        }
        Ok(TokenLayout { fields, index_bits })
    }

    /// The number of bits that a token of the enumeration uses: those of the largest data and
    /// those of the index.
    pub fn used_bits(&self) -> (bits: u32)
        requires
            self.wf(),
        ensures
            bits == widest_field(self.spec_fields()) + self.spec_index_bits(),
            bits <= 64,
    {
        let mut widest: u32 = 0;
        let mut i: usize = 0;
        while i < self.fields.len()
            invariant
                self.wf(),
                i <= self.fields@.len(),
                widest == widest_field(self.fields@.take(i as int)),
                widest <= 64 - self.index_bits,
            decreases self.fields@.len() - i,
        {
            assert(self.fields@.take(i + 1).drop_last() =~= self.fields@.take(i as int));
            assert(!field_exceeds(self.spec_fields()[i as int], 64 - self.spec_index_bits()));
            if let Some(bits) = self.fields[i] {
                if bits > widest {
                    widest = bits;
                }
            }
            i += 1;
        }
        assert(self.fields@.take(i as int) =~= self.fields@);
        widest + self.index_bits
    }

    /// The number of bits that hold the index of the variant, by which the data of a variant is
    /// shifted.
    pub fn index_bits(&self) -> (bits: u32)
        ensures
            bits == self.spec_index_bits(),
    {
        self.index_bits
    }

    /// The mask of the bits that hold the index of the variant.
    pub fn variant_mask(&self) -> (mask: u64)
        requires
            self.wf(),
        ensures
            mask == pow2(self.spec_index_bits()) - 1,
    {
        proof {
            lemma_mask(self.index_bits);
        }
        (1u64 << self.index_bits) - 1
    }

    /// Packs the variant with the given index and its data, if it carries any.
    pub fn pack(&self, index: usize, data: Option<u64>) -> (raw: u64)
        requires
            self.wf(),
            self.carries(index as int, data),
        ensures
            raw == self.packed(index as int, data),
    {
        match data {
            None => index as u64,
            Some(data) => {
                proof {
                    lemma_packed_fits(*self, index as int, Some(data));
                }
                let shifted: u64 = data << self.index_bits;
                proof {
                    lemma_u64_shl_is_mul(data, self.index_bits as u64);
                    lemma_or_is_sum(index as u64, data, self.index_bits);
                }
                index as u64 | shifted
            },
        }
    }

    /// Unpacks a token: the index of the variant it selects and the data it carries for it.
    pub fn unpack(&self, raw: u64) -> (result: (usize, Option<u64>))
        requires
            self.wf(),
            self.selected(raw) < self.spec_fields().len(),
        ensures
            result.0 == self.selected(raw),
            result.1 is Some == self.carried(raw) is Some,
            result.1 matches Some(data) ==> self.carried(raw) == Some(data as int),
    {
        proof {
            lemma2_to64();
            lemma2_to64_rest();
            lemma_u64_shr_is_div(raw, self.index_bits as u64);
            lemma_u64_low_bits_mask_is_mod(raw, self.index_bits as nat);
            lemma_mask(self.index_bits);
        }
        let mask: u64 = self.variant_mask();
        let selected: u64 = raw & mask;
        assert(selected == self.selected(raw));
        assert(self.fields.len() <= usize::MAX);
        let index: usize = selected as usize;
        let data: Option<u64> = match self.fields[index] {
            None => None,
            Some(_) => Some(raw >> self.index_bits),
        };
        (index, data)
    }
}

/// The mask of the reserved bits.
proof fn lemma_mask(bits: u32)
    requires
        bits <= 63,
    ensures
        1u64 << bits == pow2(bits as nat),
        (1u64 << bits) >= 1,
        ((1u64 << bits) - 1) as u64 == low_bits_mask(bits as nat),
{
    lemma2_to64();
    lemma2_to64_rest();
    if bits < 63 {
        lemma_pow2_strictly_increases(bits as nat, 63);
    }
    lemma_pow2_pos(bits as nat);
    lemma_u64_shl_is_mul(1, bits as u64);
    lemma_low_bits_mask_values();
}

/// A packed token fits into the bits that the layout uses: those of the index and those of the widest
/// data, which are 64 at most.
pub proof fn lemma_packed_fits(layout: TokenLayout, index: int, data: Option<u64>)
    requires
        layout.wf(),
        layout.carries(index, data),
    ensures
        0 <= layout.packed(index, data) < pow2(
            widest_field(layout.spec_fields()) + layout.spec_index_bits(),
        ),
        widest_field(layout.spec_fields()) + layout.spec_index_bits() <= 64,
        layout.packed(index, data) <= u64::MAX,
        data matches Some(d) ==> d * pow2(layout.spec_index_bits()) <= u64::MAX,
{
    let k = layout.spec_index_bits();
    let widest = widest_field(layout.spec_fields());
    lemma2_to64();
    lemma2_to64_rest();
    lemma_pow2_adds(widest, k);
    lemma_pow2_pos(k);
    lemma_pow2_pos(widest);
    lemma_widest_bounds(layout.spec_fields(), (64 - k) as nat);
    assert(widest + k <= 64);
    if widest + k < 64 {
        lemma_pow2_strictly_increases(widest + k, 64);
    }
    match data {
        None => {
            assert(index < pow2(k) <= pow2(widest) * pow2(k)) by (nonlinear_arith)
                requires
                    index < pow2(k),
                    pow2(widest) >= 1,
            ;
        },
        Some(d) => {
            lemma_widest_covers(layout.spec_fields(), index);
            let bits = layout.spec_fields()[index].unwrap() as nat;
            if bits < widest {
                lemma_pow2_strictly_increases(bits, widest);
            }
            assert(d + 1 <= pow2(widest));
            assert((d + 1) * pow2(k) <= pow2(widest) * pow2(k)) by (nonlinear_arith)
                requires
                    d + 1 <= pow2(widest),
            ;
            lemma_mul_is_distributive_add_other_way(pow2(k) as int, d as int, 1);
        },
    }
}

/// No data is wider than the widest.
proof fn lemma_widest_covers(fields: Seq<Option<u32>>, index: int)
    requires
        0 <= index < fields.len(),
    ensures
        fields[index] matches Some(bits) ==> bits <= widest_field(fields),
    decreases fields.len(),
{
    if index < fields.len() - 1 {
        lemma_widest_covers(fields.drop_last(), index);
    }
}

/// The widest data is no wider than a bound on all of them.
proof fn lemma_widest_bounds(fields: Seq<Option<u32>>, bound: nat)
    requires
        forall|i: int| 0 <= i < fields.len() ==> !field_exceeds(#[trigger] fields[i], bound as int),
    ensures
        widest_field(fields) <= bound,
    decreases fields.len(),
{
    if fields.len() > 0 {
        assert(!field_exceeds(fields[fields.len() - 1], bound as int));
        assert forall|i: int| 0 <= i < fields.drop_last().len() implies !field_exceeds(
            #[trigger] fields.drop_last()[i],
            bound as int,
        ) by {
            assert(!field_exceeds(fields[i], bound as int));
        }
        lemma_widest_bounds(fields.drop_last(), bound);
    }
}

/// An index in the reserved bits and data above them do not overlap.
proof fn lemma_or_is_sum(index: u64, data: u64, bits: u32)
    requires
        bits <= 63,
        index < pow2(bits as nat),
        data * pow2(bits as nat) <= u64::MAX,
    ensures
        index | (data << bits) == index + data * pow2(bits as nat),
{
    lemma_u64_shl_is_mul(data, bits as u64);
    lemma_mask(bits);
    assert(index < (1u64 << bits) && bits <= 63 ==> index & (data << bits) == 0) by (bit_vector);
    let shifted = data << bits;
    assert(index & shifted == 0 ==> index | shifted == index + shifted) by (bit_vector);
}

/// Unpacking gives back what was packed.
pub proof fn lemma_unpack_of_pack(layout: TokenLayout, index: int, data: Option<u64>, raw: u64)
    requires
        layout.wf(),
        layout.carries(index, data),
        raw == layout.packed(index, data),
    ensures
        layout.selected(raw) == index,
        layout.carried(raw) == (match data {
            None => None::<int>,
            Some(d) => Some(d as int),
        }),
{
    let base = pow2(layout.spec_index_bits()) as int;
    lemma_pow2_pos(layout.spec_index_bits());
    match data {
        None => {
            lemma_small_mod(index as nat, base as nat);
        },
        Some(d) => {
            lemma_fundamental_div_mod_converse(raw as int, base, d as int, index);
        },
    }
}

/// Different variants, and different data of one variant, have different tokens.
pub proof fn lemma_pack_injective(
    layout: TokenLayout,
    index1: int,
    data1: Option<u64>,
    index2: int,
    data2: Option<u64>,
)
    requires
        layout.wf(),
        layout.carries(index1, data1),
        layout.carries(index2, data2),
        layout.packed(index1, data1) == layout.packed(index2, data2),
    ensures
        index1 == index2,
        data1 == data2,
{
    lemma_packed_fits(layout, index1, data1);
    let raw = layout.packed(index1, data1) as u64;
    lemma_unpack_of_pack(layout, index1, data1, raw);
    lemma_unpack_of_pack(layout, index2, data2, raw);
}

/// Why tokens cannot be derived for a type.
#[derive(Debug, Clone, Copy, PartialEq, Eq, Structural)]
pub enum DeriveError {
    /// The type is no enumeration.
    NotAnEnum,
    /// A variant has more than one field.
    TooManyFields {
        /// The index of the first such variant.
        variant: usize,
    },
}

/// How one variant is turned into a token and back.
#[derive(Debug, Clone, Copy, PartialEq, Eq, Structural)]
pub struct TokenArm {
    /// The index of the variant.
    pub index: u64,
    /// By how many bits its data is shifted, if it carries data.
    pub shift: Option<u32>,
}

impl TokenArm {
    /// The token that the arm makes of the data of the variant, if it carries any.
    pub open spec fn joined(self, data: Option<u64>) -> u64 {
        match (self.shift, data) {
            (Some(shift), Some(data)) => self.index | (data << shift),
            _ => self.index,
        }
    }
}

/// What to generate for an enumeration.
#[derive(Debug)]
pub struct TokenPlan {
    /// The number of bits that hold the index of the variant.
    pub variant_bits: u32,
    /// The mask of these bits.
    pub variant_mask: u64,
    /// The number of bits that the data of a variant may use at most.
    pub max_allowed_bits: u32,
    /// The variants, in their order.
    pub arms: Vec<TokenArm>,
}

/// Whether the first variant with more than one field is the one at `index`.
pub open spec fn first_with_fields(field_counts: Seq<usize>, index: int) -> bool {
    &&& 0 <= index < field_counts.len()
    &&& field_counts[index] > 1
    &&& forall|i: int| 0 <= i < index ==> #[trigger] field_counts[i] <= 1
}

/// Whether a plan is that of an enumeration whose variants have the given numbers of fields.
pub open spec fn is_plan_for(plan: TokenPlan, field_counts: Seq<usize>) -> bool {
    &&& distinguishes(plan.variant_bits as nat, field_counts.len())
    &&& plan.variant_mask == pow2(plan.variant_bits as nat) - 1
    &&& plan.max_allowed_bits == 64 - plan.variant_bits
    &&& plan.arms@.len() == field_counts.len()
    &&& forall|i: int|
        0 <= i < field_counts.len() ==> #[trigger] field_counts[i] <= 1 && plan.arms@[i] == (
        TokenArm {
            index: i as u64,
            shift: if field_counts[i] == 1 {
                Some(plan.variant_bits)
            } else {
                None
            },
        })
}

/// Plans the tokens of a type with one variant for each entry of `field_counts`, which gives the
/// number of its fields.
pub fn event_token_inner(is_enum: bool, field_counts: &[usize]) -> (result: Result<
    TokenPlan,
    DeriveError,
>)
    requires
        field_counts@.len() <= MAX_VARIANTS,
    ensures
        match result {
            Ok(plan) => is_enum && is_plan_for(plan, field_counts@),
            Err(DeriveError::NotAnEnum) => !is_enum,
            Err(DeriveError::TooManyFields { variant }) => is_enum && first_with_fields(
                field_counts@,
                variant as int,
            ),
        },
{
    if !is_enum {
        return Err(DeriveError::NotAnEnum);
    }
    let bits: u32 = variant_bits(field_counts.len());
    let mut arms: Vec<TokenArm> = Vec::new();
    let mut i: usize = 0;
    while i < field_counts.len()
        invariant
            is_enum,
            i <= field_counts@.len() <= MAX_VARIANTS,
            arms@.len() == i,
            forall|j: int|
                0 <= j < i ==> #[trigger] field_counts@[j] <= 1 && arms@[j] == (TokenArm {
                    index: j as u64,
                    shift: if field_counts@[j] == 1 {
                        Some(bits)
                    } else {
                        None
                    },
                }),
        decreases field_counts@.len() - i,
    {
        if field_counts[i] > 1 {
            return Err(DeriveError::TooManyFields { variant: i });
        }
        let shift: Option<u32> = if field_counts[i] == 1 {
            Some(bits)
        } else {
            None
        };
        arms.push(TokenArm { index: i as u64, shift });
        i += 1;
    }
    proof {
        lemma_mask(bits);
    }
    Ok(
        TokenPlan {
            variant_bits: bits,
            variant_mask: (1u64 << bits) - 1,
            max_allowed_bits: 64 - bits,
            arms,
        },
    )
}

/// What is planned for an enumeration packs and unpacks its variants as a layout of the enumeration
/// does: the index of an arm joined with the shifted data is the packed token, and the mask and the
/// shift take a token apart.
pub proof fn lemma_plan_follows_layout(
    layout: TokenLayout,
    field_counts: Seq<usize>,
    plan: TokenPlan,
    index: int,
    data: Option<u64>,
    raw: u64,
)
    requires
        layout.wf(),
        is_plan_for(plan, field_counts),
        layout.spec_fields().len() == field_counts.len() <= MAX_VARIANTS,
        forall|i: int|
            0 <= i < field_counts.len() ==> (#[trigger] field_counts[i] == 1) == (
            layout.spec_fields()[i] is Some),
        layout.carries(index, data),
    ensures
        plan.variant_bits == layout.spec_index_bits(),
        plan.arms@[index].joined(data) == layout.packed(index, data),
        raw & plan.variant_mask == layout.selected(raw),
        raw >> plan.variant_bits == raw as int / pow2(layout.spec_index_bits()) as int,
{
    lemma_distinguishes_unique(
        plan.variant_bits as nat,
        layout.spec_index_bits(),
        field_counts.len(),
    );
    let bits = plan.variant_bits;
    lemma2_to64();
    lemma2_to64_rest();
    lemma_mask(bits);
    lemma_u64_shr_is_div(raw, bits as u64);
    lemma_u64_low_bits_mask_is_mod(raw, bits as nat);
    lemma_packed_fits(layout, index, data);
    assert(field_counts[index] <= 1);
    if let Some(d) = data {
        lemma_or_is_sum(index as u64, d, bits);
    }
}

} // verus!
