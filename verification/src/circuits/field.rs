//! Scalars of the proof system's field, and the encoder that turns the bytes
//! of a string into scalars.
//!
//! A scalar is kept as four 64-bit limbs, least significant first, and is
//! always reduced: its value is below the field's order.
use vstd::prelude::*;
use vstd::string::StringSliceAdditionalSpecFns;

verus! {

/// Least significant limb of the field's order.
pub const MODULUS_LIMB_0: u64 = 0x43e1f593f0000001;

/// Second limb of the field's order.
pub const MODULUS_LIMB_1: u64 = 0x2833e84879b97091;

/// Third limb of the field's order.
pub const MODULUS_LIMB_2: u64 = 0xb85045b68181585d;

/// Most significant limb of the field's order.
pub const MODULUS_LIMB_3: u64 = 0x30644e72e131a029;

/// The order of the BN254 scalar field.
pub open spec fn modulus() -> nat {
    21888242871839275222246405745257275088548364400416034343698204186575808495617nat
}

/// The number that four limbs stand for, least significant limb first.
pub open spec fn limbs_value(l0: u64, l1: u64, l2: u64, l3: u64) -> nat {
    (l0 as nat) + (l1 as nat) * 0x1_0000_0000_0000_0000nat + (l2 as nat)
        * 0x1_0000_0000_0000_0000_0000_0000_0000_0000nat + (l3 as nat)
        * 0x1_0000_0000_0000_0000_0000_0000_0000_0000_0000_0000_0000_0000nat
}

/// Whether four limbs stand for a number below the field's order.
pub open spec fn limbs_reduced(l0: u64, l1: u64, l2: u64, l3: u64) -> bool {
    limbs_value(l0, l1, l2, l3) < modulus()
}

/// Sum of two scalars in the field.
pub open spec fn field_add(a: nat, b: nat) -> nat {
    (a + b) % modulus()
}

/// The order written as limbs is the order: comparing limbs with these
/// constants compares numbers with the order.
pub proof fn lemma_modulus_limbs()
    ensures
        limbs_value(MODULUS_LIMB_0, MODULUS_LIMB_1, MODULUS_LIMB_2, MODULUS_LIMB_3) == modulus(),
{
}

/// Whether four limbs stand for a number below the field's order.
fn below_modulus(l0: u64, l1: u64, l2: u64, l3: u64) -> (r: bool)
    ensures
        r == limbs_reduced(l0, l1, l2, l3),
{
    l3 < MODULUS_LIMB_3 || (l3 == MODULUS_LIMB_3 && (l2 < MODULUS_LIMB_2 || (l2 == MODULUS_LIMB_2
        && (l1 < MODULUS_LIMB_1 || (l1 == MODULUS_LIMB_1 && l0 < MODULUS_LIMB_0)))))
}

/// The sum of two limbs and a carry: its low limb and the carry out.
fn add_limbs(x: u64, y: u64, carry: u64) -> (r: (u64, u64))
    requires
        carry <= 1,
    ensures
        r.1 <= 1,
        r.0 + r.1 * 0x1_0000_0000_0000_0000 == x + y + carry,
{
    let total: u128 = x as u128 + y as u128 + carry as u128;
    if total >= 0x1_0000_0000_0000_0000 {
        ((total - 0x1_0000_0000_0000_0000) as u64, 1)
    } else {
        (total as u64, 0)
    }
}

/// The difference of two limbs less a borrow: its low limb and the borrow
/// out.
fn sub_limbs(x: u64, y: u64, borrow: u64) -> (r: (u64, u64))
    requires
        borrow <= 1,
    ensures
        r.1 <= 1,
        r.0 - r.1 * 0x1_0000_0000_0000_0000 == x - y - borrow,
{
    let lifted: u128 = x as u128 + 0x1_0000_0000_0000_0000 - y as u128 - borrow as u128;
    if lifted >= 0x1_0000_0000_0000_0000 {
        ((lifted - 0x1_0000_0000_0000_0000) as u64, 0)
    } else {
        (lifted as u64, 1)
    }
}

/// A scalar of the field.
#[derive(Clone, Copy, Debug, PartialEq, Eq, Structural)]
pub struct FieldElement {
    pub(crate) l0: u64,
    pub(crate) l1: u64,
    pub(crate) l2: u64,
    pub(crate) l3: u64,
}

impl FieldElement {
    #[verifier::type_invariant]
    spec fn reduced(self) -> bool {
        limbs_reduced(self.l0, self.l1, self.l2, self.l3)
    }

    /// The scalar as a number in `0 .. modulus()`.
    pub closed spec fn value(&self) -> nat {
        limbs_value(self.l0, self.l1, self.l2, self.l3)
    }

    /// The scalar whose value is `v`.
    pub fn from_u64(v: u64) -> (r: FieldElement)
        ensures
            r.value() == v,
    {
        FieldElement { l0: v, l1: 0, l2: 0, l3: 0 }
    }

    /// The scalar that the limbs stand for, least significant first, if they
    /// are reduced.
    pub fn from_limbs(l0: u64, l1: u64, l2: u64, l3: u64) -> (r: Option<FieldElement>)
        ensures
            r is Some <==> limbs_reduced(l0, l1, l2, l3),
            r matches Some(x) ==> x.value() == limbs_value(l0, l1, l2, l3),
    {
        if below_modulus(l0, l1, l2, l3) {
            Some(FieldElement { l0, l1, l2, l3 })
        } else {
            None
        }
    }

    /// The sum of two scalars in the field.
    pub fn add(&self, other: &FieldElement) -> (r: FieldElement)
        ensures
            r.value() == field_add(self.value(), other.value()),
    {
        proof {
            use_type_invariant(self);
            use_type_invariant(other);
        }
        // the sum of the numbers, which is below twice the order and fits
        let (s0, carry) = add_limbs(self.l0, other.l0, 0);
        let (s1, carry) = add_limbs(self.l1, other.l1, carry);
        let (s2, carry) = add_limbs(self.l2, other.l2, carry);
        let (s3, carry) = add_limbs(self.l3, other.l3, carry);
        assert(carry == 0);
        assert(limbs_value(s0, s1, s2, s3) == self.value() + other.value());
        if below_modulus(s0, s1, s2, s3) {
            proof {
                vstd::arithmetic::div_mod::lemma_small_mod(
                    self.value() + other.value(),
                    modulus(),
                );
            }
            FieldElement { l0: s0, l1: s1, l2: s2, l3: s3 }
        } else {
            // the sum less the order
            let (d0, borrow) = sub_limbs(s0, MODULUS_LIMB_0, 0);
            let (d1, borrow) = sub_limbs(s1, MODULUS_LIMB_1, borrow);
            let (d2, borrow) = sub_limbs(s2, MODULUS_LIMB_2, borrow);
            let (d3, borrow) = sub_limbs(s3, MODULUS_LIMB_3, borrow);
            assert(borrow == 0);
            assert(limbs_value(d0, d1, d2, d3) == self.value() + other.value() - modulus());
            proof {
                vstd::arithmetic::div_mod::lemma_fundamental_div_mod_converse(
                    (self.value() + other.value()) as int,
                    modulus() as int,
                    1,
                    limbs_value(d0, d1, d2, d3) as int,
                );
            }
            FieldElement { l0: d0, l1: d1, l2: d2, l3: d3 }
        }
    }

    /// Scalars with the same value are the same scalar.
    pub proof fn lemma_value_injective(x: FieldElement, y: FieldElement)
        ensures
            x.value() == y.value() <==> x == y,
    {
    }

    /// The limbs of the scalar, least significant first.
    pub fn limbs(&self) -> (r: (u64, u64, u64, u64))
        ensures
            limbs_value(r.0, r.1, r.2, r.3) == self.value(),
            limbs_reduced(r.0, r.1, r.2, r.3),
    {
        proof {
            use_type_invariant(self);
        }
        (self.l0, self.l1, self.l2, self.l3)
    }
}

impl vstd::std_specs::convert::FromSpecImpl<u64> for FieldElement {
    open spec fn obeys_from_spec() -> bool {
        true
    }

    closed spec fn from_spec(v: u64) -> Self {
        FieldElement { l0: v, l1: 0, l2: 0, l3: 0 }
    }
}

impl From<u64> for FieldElement {
    /// The scalar whose value is `v`.
    fn from(v: u64) -> (r: FieldElement)
        ensures
            r.value() == v,
    {
        FieldElement::from_u64(v)
    }
}

/// The values of a sequence of scalars, in order.
pub open spec fn values(elements: Seq<FieldElement>) -> Seq<nat> {
    elements.map_values(|x: FieldElement| x.value())
}

/// The scalars that stand for a sequence of bytes: one scalar for each byte,
/// in the order of the bytes, each with the byte's number as its value.
pub open spec fn encoding(bytes: Seq<u8>) -> Seq<nat> {
    bytes.map_values(|b: u8| b as nat)
}

/// Different byte sequences have different encodings.
pub proof fn lemma_encoding_injective(first: Seq<u8>, second: Seq<u8>)
    requires
        encoding(first) == encoding(second),
    ensures
        first == second,
{
    assert(first.len() == encoding(first).len());
    assert(second.len() == encoding(second).len());
    assert forall|i: int| 0 <= i < first.len() implies first[i] == second[i] by {
        assert(encoding(first)[i] == first[i] as nat);
        assert(encoding(second)[i] == second[i] as nat);
    }
    assert(first =~= second);
}

/// Encodes bytes as scalars.
pub fn encode(bytes: &[u8]) -> (r: Vec<FieldElement>)
    ensures
        values(r@) == encoding(bytes@),
{
    let mut elements: Vec<FieldElement> = Vec::new();
    let mut i: usize = 0;
    while i < bytes.len()
        invariant
            i <= bytes.len(),
            elements.len() == i,
            forall|j: int| 0 <= j < i ==> (#[trigger] elements@[j]).value() == bytes@[j] as nat,
        decreases bytes.len() - i,
    {
        elements.push(FieldElement::from_u64(bytes[i] as u64));
        i += 1;
    }
    assert(values(elements@) =~= encoding(bytes@));
    elements
}

/// A string as scalars: one scalar for each byte of the string, in the order
/// of the bytes.
#[derive(Clone, Debug)]
pub struct PrimeString(Vec<FieldElement>);

impl View for PrimeString {
    type V = Seq<nat>;

    closed spec fn view(&self) -> Seq<nat> {
        values(self.0@)
    }
}

impl vstd::std_specs::convert::FromSpecImpl<&'static str> for PrimeString {
    open spec fn obeys_from_spec() -> bool {
        false
    }

    closed spec fn from_spec(v: &'static str) -> Self {
        choose|r: PrimeString| r@ == encoding(v.spec_bytes())
    }
}

impl From<&'static str> for PrimeString {
    /// The scalars of the string's bytes.
    fn from(value: &'static str) -> (r: PrimeString)
        ensures
            r@ == encoding(value.spec_bytes()),
    {
        PrimeString(encode(value.as_bytes()))
    }
}

impl vstd::std_specs::convert::FromSpecImpl<PrimeString> for Vec<FieldElement> {
    open spec fn obeys_from_spec() -> bool {
        true
    }

    closed spec fn from_spec(v: PrimeString) -> Self {
        v.0
    }
}

impl From<PrimeString> for Vec<FieldElement> {
    /// The scalars, in order.
    fn from(value: PrimeString) -> (r: Vec<FieldElement>)
        ensures
            values(r@) == value@,
    {
        value.0
    }
}

impl PrimeString {
    /// How many scalars there are.
    pub fn len(&self) -> (r: usize)
        ensures
            r == self@.len(),
    {
        self.0.len()
    }
}

} // verus!
