use vstd::prelude::*;
use vstd::std_specs::cmp::{PartialEqSpec, PartialEqSpecImpl};
use vstd::std_specs::convert::{FromSpec, FromSpecImpl};

use crate::bytes::{array_from_seq, arrays_equal, fit_to, le_bytes_u128, lemma_seq_is_array_view};

verus! {

/// The identifier of an identity: 32 bytes.
#[derive(Clone, Copy, Eq, PartialOrd, Ord)]
pub struct IdentityId([u8; 32]);

impl View for IdentityId {
    type V = Seq<u8>;

    closed spec fn view(&self) -> Seq<u8> {
        self.0@
    }
}

impl IdentityId {
    /// The identity whose bytes are `bytes`.
    pub open spec fn with_bytes(bytes: Seq<u8>) -> IdentityId {
        choose|d: IdentityId| d@ == bytes
    }

    /// An identity is its 32 bytes: two identities with the same bytes are the
    /// same identity, and every 32-byte string is the bytes of an identity.
    pub proof fn lemma_bytes_determine(a: IdentityId, b: IdentityId)
        ensures
            a@.len() == 32,
            a@ == b@ <==> a == b,
            forall|v: Seq<u8>| v.len() == 32 ==> (#[trigger] Self::with_bytes(v))@ == v,
    {
        if a@ == b@ {
            assert(a.0 =~= b.0);
        }
        assert forall|v: Seq<u8>| v.len() == 32 implies (#[trigger] Self::with_bytes(v))@ == v by {
            lemma_seq_is_array_view::<32>(v);
            assert(IdentityId(array_from_seq::<32>(v, 32))@ == v);
        }
    }

    /// Transform into a fixed array of bytes.
    pub fn to_bytes(self) -> (bytes: [u8; 32])
        ensures
            bytes@ == self@,
    {
        self.0
    }
}

impl PartialEq for IdentityId {
    fn eq(&self, other: &Self) -> (r: bool) {
        arrays_equal(&self.0, &other.0)
    }
}

impl PartialEqSpecImpl for IdentityId {
    open spec fn obeys_eq_spec() -> bool {
        true
    }

    open spec fn eq_spec(&self, other: &Self) -> bool {
        self@ == other@
    }
}

impl From<u128> for IdentityId {
    /// The 16 little-endian bytes of `id`, followed by 16 zero bytes.
    fn from(id: u128) -> (r: Self) {
        let mut did = [0u8; 32];
        let mut i: u32 = 0;
        while i < 16
            invariant
                i <= 16,
                did@.len() == 32,
                forall|j: int| 0 <= j < i ==> did@[j] == le_bytes_u128(id)[j],
                forall|j: int| i <= j < 32 ==> did@[j] == 0u8,
            decreases 16 - i,
        {
            did[i as usize] = (id >> (8 * i)) as u8;
            i = i + 1;
        }
        assert(did@ =~= fit_to(le_bytes_u128(id), 32));
        let r = IdentityId(did);
        proof {
            Self::lemma_bytes_determine(r, Self::with_bytes(did@));
        }
        r
    }
}

impl FromSpecImpl<u128> for IdentityId {
    open spec fn obeys_from_spec() -> bool {
        true
    }

    open spec fn from_spec(v: u128) -> Self {
        IdentityId::with_bytes(fit_to(le_bytes_u128(v), 32))
    }
}

/// Distinct numbers give distinct identities.
pub proof fn law_identity_from_u128_injective(x: u128, y: u128)
    requires
        <IdentityId as FromSpec<u128>>::from_spec(x) == <IdentityId as FromSpec<u128>>::from_spec(y),
    ensures
        x == y,
{
    let a = <IdentityId as FromSpec<u128>>::from_spec(x);
    IdentityId::lemma_bytes_determine(a, a);
    IdentityId::lemma_bytes_determine(
        <IdentityId as FromSpec<u128>>::from_spec(y),
        <IdentityId as FromSpec<u128>>::from_spec(y),
    );
    assert forall|i: int| 0 <= i < 16 implies le_bytes_u128(x)[i] == le_bytes_u128(y)[i] by {
        assert(fit_to(le_bytes_u128(x), 32)[i] == fit_to(le_bytes_u128(y), 32)[i]);
    }
    assert(le_bytes_u128(x)[0] == le_bytes_u128(y)[0]);
    assert(le_bytes_u128(x)[1] == le_bytes_u128(y)[1]);
    assert(le_bytes_u128(x)[2] == le_bytes_u128(y)[2]);
    assert(le_bytes_u128(x)[3] == le_bytes_u128(y)[3]);
    assert(le_bytes_u128(x)[4] == le_bytes_u128(y)[4]);
    assert(le_bytes_u128(x)[5] == le_bytes_u128(y)[5]);
    assert(le_bytes_u128(x)[6] == le_bytes_u128(y)[6]);
    assert(le_bytes_u128(x)[7] == le_bytes_u128(y)[7]);
    assert(le_bytes_u128(x)[8] == le_bytes_u128(y)[8]);
    assert(le_bytes_u128(x)[9] == le_bytes_u128(y)[9]);
    assert(le_bytes_u128(x)[10] == le_bytes_u128(y)[10]);
    assert(le_bytes_u128(x)[11] == le_bytes_u128(y)[11]);
    assert(le_bytes_u128(x)[12] == le_bytes_u128(y)[12]);
    assert(le_bytes_u128(x)[13] == le_bytes_u128(y)[13]);
    assert(le_bytes_u128(x)[14] == le_bytes_u128(y)[14]);
    assert(le_bytes_u128(x)[15] == le_bytes_u128(y)[15]);
    assert(x == y) by (bit_vector)
        requires
            (x >> 0u32) as u8 == (y >> 0u32) as u8,
            (x >> 8u32) as u8 == (y >> 8u32) as u8,
            (x >> 16u32) as u8 == (y >> 16u32) as u8,
            (x >> 24u32) as u8 == (y >> 24u32) as u8,
            (x >> 32u32) as u8 == (y >> 32u32) as u8,
            (x >> 40u32) as u8 == (y >> 40u32) as u8,
            (x >> 48u32) as u8 == (y >> 48u32) as u8,
            (x >> 56u32) as u8 == (y >> 56u32) as u8,
            (x >> 64u32) as u8 == (y >> 64u32) as u8,
            (x >> 72u32) as u8 == (y >> 72u32) as u8,
            (x >> 80u32) as u8 == (y >> 80u32) as u8,
            (x >> 88u32) as u8 == (y >> 88u32) as u8,
            (x >> 96u32) as u8 == (y >> 96u32) as u8,
            (x >> 104u32) as u8 == (y >> 104u32) as u8,
            (x >> 112u32) as u8 == (y >> 112u32) as u8,
            (x >> 120u32) as u8 == (y >> 120u32) as u8,
    ;
}

/// Two identities are `==` exactly when they are the same identity, that is when
/// all 32 of their bytes are equal.
pub proof fn law_identity_eq_is_byte_equality(a: IdentityId, b: IdentityId)
    ensures
        <IdentityId as PartialEqSpec>::eq_spec(&a, &b) <==> a == b,
        <IdentityId as PartialEqSpec>::eq_spec(&a, &b) <==> (forall|i: int|
            0 <= i < 32 ==> a@[i] == b@[i]),
        a@.len() == 32,
        b@.len() == 32,
{
    IdentityId::lemma_bytes_determine(a, b);
    IdentityId::lemma_bytes_determine(b, a);
    if forall|i: int| 0 <= i < 32 ==> a@[i] == b@[i] {
        assert(a@ =~= b@);
    }
}

/// Identities built from two numbers are `==` exactly when the numbers are equal.
pub proof fn law_identity_from_u128_eq(x: u128, y: u128)
    ensures
        <IdentityId as PartialEqSpec>::eq_spec(
            &<IdentityId as FromSpec<u128>>::from_spec(x),
            &<IdentityId as FromSpec<u128>>::from_spec(y),
        ) <==> x == y,
{
    let a = <IdentityId as FromSpec<u128>>::from_spec(x);
    let b = <IdentityId as FromSpec<u128>>::from_spec(y);
    law_identity_eq_is_byte_equality(a, b);
    if a == b {
        law_identity_from_u128_injective(x, y);
    }
}

/// The identity built from a number holds the number's base-256 digits, least
/// significant first, then zeros: its first byte is the number modulo 256, its
/// next 15 bytes are the first 15 of the identity built from the number divided
/// by 256, and its last 16 bytes are zero.
pub proof fn law_identity_from_u128_digits(x: u128)
    ensures
        ({
            let id = <IdentityId as FromSpec<u128>>::from_spec(x);
            let rest = <IdentityId as FromSpec<u128>>::from_spec(x / 256);
            &&& id@.len() == 32
            &&& id@[0] as int == x as int % 256
            &&& forall|i: int| 0 <= i < 15 ==> id@[i + 1] == rest@[i]
            &&& forall|i: int| 16 <= i < 32 ==> id@[i] == 0u8
        }),
{
    let id = <IdentityId as FromSpec<u128>>::from_spec(x);
    let rest = <IdentityId as FromSpec<u128>>::from_spec(x / 256);
    IdentityId::lemma_bytes_determine(id, rest);
    assert(id@ == fit_to(le_bytes_u128(x), 32));
    assert(rest@ == fit_to(le_bytes_u128(x / 256), 32));
    assert(((x >> 0u32) as u8) as int == x as int % 256) by (bit_vector);
    assert(((x >> 8u32) as u8) == (((x / 256u128) >> 0u32) as u8)) by (bit_vector);
    assert(((x >> 16u32) as u8) == (((x / 256u128) >> 8u32) as u8)) by (bit_vector);
    assert(((x >> 24u32) as u8) == (((x / 256u128) >> 16u32) as u8)) by (bit_vector);
    assert(((x >> 32u32) as u8) == (((x / 256u128) >> 24u32) as u8)) by (bit_vector);
    assert(((x >> 40u32) as u8) == (((x / 256u128) >> 32u32) as u8)) by (bit_vector);
    assert(((x >> 48u32) as u8) == (((x / 256u128) >> 40u32) as u8)) by (bit_vector);
    assert(((x >> 56u32) as u8) == (((x / 256u128) >> 48u32) as u8)) by (bit_vector);
    assert(((x >> 64u32) as u8) == (((x / 256u128) >> 56u32) as u8)) by (bit_vector);
    assert(((x >> 72u32) as u8) == (((x / 256u128) >> 64u32) as u8)) by (bit_vector);
    assert(((x >> 80u32) as u8) == (((x / 256u128) >> 72u32) as u8)) by (bit_vector);
    assert(((x >> 88u32) as u8) == (((x / 256u128) >> 80u32) as u8)) by (bit_vector);
    assert(((x >> 96u32) as u8) == (((x / 256u128) >> 88u32) as u8)) by (bit_vector);
    assert(((x >> 104u32) as u8) == (((x / 256u128) >> 96u32) as u8)) by (bit_vector);
    assert(((x >> 112u32) as u8) == (((x / 256u128) >> 104u32) as u8)) by (bit_vector);
    assert(((x >> 120u32) as u8) == (((x / 256u128) >> 112u32) as u8)) by (bit_vector);
    assert forall|i: int| 0 <= i < 15 implies id@[i + 1] == rest@[i] by {
        assert(id@[i + 1] == le_bytes_u128(x)[i + 1]);
        assert(rest@[i] == le_bytes_u128(x / 256)[i]);
    }
}

} // verus!
