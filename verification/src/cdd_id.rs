use vstd::prelude::*;
use vstd::std_specs::cmp::{PartialEqSpec, PartialEqSpecImpl};
use vstd::std_specs::convert::{FromSpec, FromSpecImpl};

use crate::bytes::{
    array_from_seq, arrays_equal, fit_16, fit_32, fit_to, lemma_seq_is_array_view, zero_bytes,
};
use crate::claim::{cdd_commitment, compute_cdd_id_bytes};
use crate::identity_id::IdentityId;

verus! {

/// The investor UID identifies the legal entity of an investor.
/// It should be kept encrypted in order to have the investor's portfolio hidden between several
/// identities.
///
/// That UID is generated by any trusted CDD provider, based on the investor's Personal
/// Identifiable Information (PII).
#[derive(Clone, Copy, Eq, PartialOrd, Ord)]
pub struct InvestorUid([u8; 16]);

impl View for InvestorUid {
    type V = Seq<u8>;

    closed spec fn view(&self) -> Seq<u8> {
        self.0@
    }
}

impl InvestorUid {
    /// The UID whose bytes are `bytes`.
    pub open spec fn with_bytes(bytes: Seq<u8>) -> InvestorUid {
        choose|u: InvestorUid| u@ == bytes
    }

    /// A UID is its 16 bytes: two UIDs with the same bytes are the same UID, and
    /// every 16-byte string is the bytes of a UID.
    pub proof fn lemma_bytes_determine(a: InvestorUid, b: InvestorUid)
        ensures
            a@.len() == 16,
            a@ == b@ <==> a == b,
            forall|v: Seq<u8>| v.len() == 16 ==> (#[trigger] Self::with_bytes(v))@ == v,
    {
        if a@ == b@ {
            assert(a.0 =~= b.0);
        }
        assert forall|v: Seq<u8>| v.len() == 16 implies (#[trigger] Self::with_bytes(v))@ == v by {
            lemma_seq_is_array_view::<16>(v);
            assert(InvestorUid(array_from_seq::<16>(v, 16))@ == v);
        }
    }

    /// Builds the UID that holds exactly the bytes of `bytes`.
    fn from_array(bytes: [u8; 16]) -> (r: InvestorUid)
        ensures
            r@ == bytes@,
            r == Self::with_bytes(bytes@),
    {
        let r = InvestorUid(bytes);
        proof {
            Self::lemma_bytes_determine(r, Self::with_bytes(bytes@));
        }
        r
    }

    /// Transform into a fixed array of bytes.
    pub fn to_bytes(self) -> (bytes: [u8; 16])
        ensures
            bytes@ == self@,
    {
        self.0
    }

    /// The UID's bytes as a slice.
    pub fn as_slice(&self) -> (s: &[u8])
        ensures
            s@ == self@,
    {
        self.0.as_slice()
    }
}

impl PartialEq for InvestorUid {
    fn eq(&self, other: &Self) -> (r: bool) {
        arrays_equal(&self.0, &other.0)
    }
}

impl PartialEqSpecImpl for InvestorUid {
    open spec fn obeys_eq_spec() -> bool {
        true
    }

    open spec fn eq_spec(&self, other: &Self) -> bool {
        self@ == other@
    }
}

impl Default for InvestorUid {
    /// The zero-filled UID.
    fn default() -> (r: Self)
        ensures
            r@ == zero_bytes(16),
            r@.len() == 16,
            forall|i: int| 0 <= i < 16 ==> r@[i] == 0u8,
    {
        let r = InvestorUid([0u8; 16]);
        assert(r@ =~= zero_bytes(16));
        r
    }
}

impl From<[u8; 16]> for InvestorUid {
    fn from(s: [u8; 16]) -> (r: Self) {
        Self::from_array(s)
    }
}

impl FromSpecImpl<[u8; 16]> for InvestorUid {
    open spec fn obeys_from_spec() -> bool {
        true
    }

    open spec fn from_spec(v: [u8; 16]) -> Self {
        InvestorUid::with_bytes(v@)
    }
}

impl From<[u8; 32]> for InvestorUid {
    /// Keeps the first 16 bytes.
    fn from(s: [u8; 32]) -> (r: Self) {
        let short = fit_16(s.as_slice());
        proof {
            assert(short@ =~= s@.subrange(0, 16));
        }
        Self::from_array(short)
    }
}

impl FromSpecImpl<[u8; 32]> for InvestorUid {
    open spec fn obeys_from_spec() -> bool {
        true
    }

    open spec fn from_spec(v: [u8; 32]) -> Self {
        InvestorUid::with_bytes(v@.subrange(0, 16))
    }
}

impl<'a> From<&'a [u8]> for InvestorUid {
    /// Takes up to 16 bytes of `s`; the bytes that `s` lacks are zero.
    fn from(s: &'a [u8]) -> (r: Self) {
        Self::from_array(fit_16(s))
    }
}

impl<'a> FromSpecImpl<&'a [u8]> for InvestorUid {
    open spec fn obeys_from_spec() -> bool {
        true
    }

    open spec fn from_spec(v: &'a [u8]) -> Self {
        InvestorUid::with_bytes(fit_to(v@, 16))
    }
}

/// It links the investor UID with a specific identity in a way that no one can extract that
/// investor UID from this CDD Id, and the investor can create a Zero Knowledge Proof to prove that
/// a specific identity belongs to him.
/// The main purpose of this claim is to keep the privacy of the investor using several identities
/// to handle his portfolio.
#[derive(Clone, Copy, Eq, PartialOrd, Ord)]
pub struct CddId([u8; 32]);

impl View for CddId {
    type V = Seq<u8>;

    closed spec fn view(&self) -> Seq<u8> {
        self.0@
    }
}

impl CddId {
    /// The CDD Id whose bytes are `bytes`.
    pub open spec fn with_bytes(bytes: Seq<u8>) -> CddId {
        choose|c: CddId| c@ == bytes
    }

    /// A CDD Id is its 32 bytes: two CDD Ids with the same bytes are the same
    /// CDD Id, and every 32-byte string is the bytes of a CDD Id.
    pub proof fn lemma_bytes_determine(a: CddId, b: CddId)
        ensures
            a@.len() == 32,
            a@ == b@ <==> a == b,
            forall|v: Seq<u8>| v.len() == 32 ==> (#[trigger] Self::with_bytes(v))@ == v,
    {
        if a@ == b@ {
            assert(a.0 =~= b.0);
        }
        assert forall|v: Seq<u8>| v.len() == 32 implies (#[trigger] Self::with_bytes(v))@ == v by {
            lemma_seq_is_array_view::<32>(v);
            assert(CddId(array_from_seq::<32>(v, 32))@ == v);
        }
    }

    /// Builds the CDD Id that holds exactly the bytes of `bytes`.
    fn from_array(bytes: [u8; 32]) -> (r: CddId)
        ensures
            r@ == bytes@,
            r == Self::with_bytes(bytes@),
    {
        let r = CddId(bytes);
        proof {
            Self::lemma_bytes_determine(r, Self::with_bytes(bytes@));
        }
        r
    }

    /// Create a new CDD Id given the `did` and the `investor_uid`: the blinded
    /// commitment to both, whose blind factor is a hash of the two.
    pub fn new(did: IdentityId, investor_uid: InvestorUid) -> (r: Self)
        ensures
            r@ == cdd_commitment(did@, investor_uid@),
    {
        let did_bytes = did.to_bytes();
        let uid_bytes = investor_uid.to_bytes();
        let raw_cdd_id = compute_cdd_id_bytes(&did_bytes, &uid_bytes);
        let r = Self::from(raw_cdd_id);
        proof {
            Self::lemma_bytes_determine(r, r);
        }
        r
    }

    /// Only the zero-filled `CddId` is considered as invalid.
    pub fn is_default_cdd(&self) -> (r: bool)
        ensures
            r == (self@ == zero_bytes(32)),
            r <==> forall|i: int| 0 <= i < 32 ==> self@[i] == 0u8,
    {
        proof {
            Self::lemma_bytes_determine(*self, *self);
            if forall|i: int| 0 <= i < 32 ==> self@[i] == 0u8 {
                assert(self@ =~= zero_bytes(32));
            }
        }
        let zero = [0u8; 32];
        assert(zero@ =~= zero_bytes(32));
        arrays_equal(&self.0, &zero)
    }

    /// The CDD Id's bytes as a slice.
    pub fn as_slice(&self) -> (s: &[u8])
        ensures
            s@ == self@,
    {
        self.0.as_slice()
    }
}

impl PartialEq for CddId {
    fn eq(&self, other: &Self) -> (r: bool) {
        arrays_equal(&self.0, &other.0)
    }
}

impl PartialEqSpecImpl for CddId {
    open spec fn obeys_eq_spec() -> bool {
        true
    }

    open spec fn eq_spec(&self, other: &Self) -> bool {
        self@ == other@
    }
}

impl Default for CddId {
    /// The zero-filled CDD Id.
    fn default() -> (r: Self)
        ensures
            r@ == zero_bytes(32),
            r@.len() == 32,
            forall|i: int| 0 <= i < 32 ==> r@[i] == 0u8,
    {
        let r = CddId([0u8; 32]);
        assert(r@ =~= zero_bytes(32));
        r
    }
}

impl From<[u8; 32]> for CddId {
    fn from(data: [u8; 32]) -> (r: Self) {
        Self::from_array(data)
    }
}

impl FromSpecImpl<[u8; 32]> for CddId {
    open spec fn obeys_from_spec() -> bool {
        true
    }

    open spec fn from_spec(v: [u8; 32]) -> Self {
        CddId::with_bytes(v@)
    }
}

impl<'a> From<&'a [u8]> for CddId {
    /// Takes up to 32 bytes of `s`; the bytes that `s` lacks are zero.
    fn from(s: &'a [u8]) -> (r: Self) {
        Self::from_array(fit_32(s))
    }
}

impl<'a> FromSpecImpl<&'a [u8]> for CddId {
    open spec fn obeys_from_spec() -> bool {
        true
    }

    open spec fn from_spec(v: &'a [u8]) -> Self {
        CddId::with_bytes(fit_to(v@, 32))
    }
}

/// Turning a UID into its bytes and building a UID from those bytes gives the
/// same UID back (`bytes` is what `to_bytes` returns for `uid`).
pub proof fn law_uid_bytes_round_trip(uid: InvestorUid, bytes: [u8; 16])
    requires
        bytes@ == uid@,
    ensures
        <InvestorUid as FromSpec<[u8; 16]>>::from_spec(bytes) == uid,
{
    InvestorUid::lemma_bytes_determine(uid, InvestorUid::with_bytes(bytes@));
}

/// A UID built from 16 bytes holds exactly those bytes.
pub proof fn law_uid_keeps_its_bytes(bytes: [u8; 16])
    ensures
        <InvestorUid as FromSpec<[u8; 16]>>::from_spec(bytes)@ == bytes@,
{
    InvestorUid::lemma_bytes_determine(
        <InvestorUid as FromSpec<[u8; 16]>>::from_spec(bytes),
        <InvestorUid as FromSpec<[u8; 16]>>::from_spec(bytes),
    );
}

/// A UID built from 32 bytes is the UID built from the first 16 of them, and
/// the UID built from a slice holding those 32 bytes.
pub proof fn law_uid_from_wide_is_prefix(wide: [u8; 32], narrow: [u8; 16], slice: &[u8])
    requires
        narrow@ == wide@.subrange(0, 16),
        slice@ == wide@,
    ensures
        <InvestorUid as FromSpec<[u8; 32]>>::from_spec(wide)
            == <InvestorUid as FromSpec<[u8; 16]>>::from_spec(narrow),
        <InvestorUid as FromSpec<&[u8]>>::from_spec(slice)
            == <InvestorUid as FromSpec<[u8; 32]>>::from_spec(wide),
{
    assert(fit_to(slice@, 16) =~= wide@.subrange(0, 16));
}

/// A UID built from a slice of at most 16 bytes starts with those bytes and is
/// zero after them; one built from a longer slice keeps its first 16 bytes.
pub proof fn law_uid_from_slice(slice: &[u8])
    ensures
        ({
            let u = <InvestorUid as FromSpec<&[u8]>>::from_spec(slice);
            &&& u@.len() == 16
            &&& forall|i: int| 0 <= i < 16 && i < slice@.len() ==> u@[i] == slice@[i]
            &&& forall|i: int| slice@.len() <= i < 16 ==> u@[i] == 0u8
        }),
{
    let u = <InvestorUid as FromSpec<&[u8]>>::from_spec(slice);
    InvestorUid::lemma_bytes_determine(u, u);
    assert(u@ == fit_to(slice@, 16));
}

/// A CDD Id built from 32 bytes holds exactly those bytes.
pub proof fn law_cdd_keeps_its_bytes(bytes: [u8; 32])
    ensures
        <CddId as FromSpec<[u8; 32]>>::from_spec(bytes)@ == bytes@,
{
    CddId::lemma_bytes_determine(
        <CddId as FromSpec<[u8; 32]>>::from_spec(bytes),
        <CddId as FromSpec<[u8; 32]>>::from_spec(bytes),
    );
}

/// Only the zero-filled CDD Id is invalid: `is_default_cdd` holds of a CDD Id
/// exactly when it is the default one (`zero` is what `default` returns).
pub proof fn law_only_default_cdd_is_invalid(cdd: CddId, zero: CddId)
    requires
        zero@ == zero_bytes(32),
    ensures
        (cdd@ == zero_bytes(32)) <==> cdd == zero,
{
    CddId::lemma_bytes_determine(cdd, zero);
}

/// The CDD Id of an identity and an investor UID is a function of the two:
/// any two CDD Ids that `new` gives for them are the same.
pub proof fn law_cdd_id_is_determined(did: IdentityId, uid: InvestorUid, a: CddId, b: CddId)
    requires
        a@ == cdd_commitment(did@, uid@),
        b@ == cdd_commitment(did@, uid@),
    ensures
        a == b,
{
    CddId::lemma_bytes_determine(a, b);
}

/// Two UIDs are `==` exactly when they are the same UID, that is when all 16 of
/// their bytes are equal.
pub proof fn law_uid_eq_is_byte_equality(a: InvestorUid, b: InvestorUid)
    ensures
        <InvestorUid as PartialEqSpec>::eq_spec(&a, &b) <==> a == b,
        <InvestorUid as PartialEqSpec>::eq_spec(&a, &b) <==> (forall|i: int|
            0 <= i < 16 ==> a@[i] == b@[i]),
        a@.len() == 16,
        b@.len() == 16,
{
    InvestorUid::lemma_bytes_determine(a, b);
    InvestorUid::lemma_bytes_determine(b, a);
    if forall|i: int| 0 <= i < 16 ==> a@[i] == b@[i] {
        assert(a@ =~= b@);
    }
}

/// Two CDD Ids are `==` exactly when they are the same CDD Id, that is when all
/// 32 of their bytes are equal.
pub proof fn law_cdd_eq_is_byte_equality(a: CddId, b: CddId)
    ensures
        <CddId as PartialEqSpec>::eq_spec(&a, &b) <==> a == b,
        <CddId as PartialEqSpec>::eq_spec(&a, &b) <==> (forall|i: int|
            0 <= i < 32 ==> a@[i] == b@[i]),
        a@.len() == 32,
        b@.len() == 32,
{
    CddId::lemma_bytes_determine(a, b);
    CddId::lemma_bytes_determine(b, a);
    if forall|i: int| 0 <= i < 32 ==> a@[i] == b@[i] {
        assert(a@ =~= b@);
    }
}

/// A CDD Id built from a slice of at most 32 bytes starts with those bytes and is
/// zero after them; one built from a longer slice keeps its first 32 bytes.
pub proof fn law_cdd_from_slice(slice: &[u8])
    ensures
        ({
            let c = <CddId as FromSpec<&[u8]>>::from_spec(slice);
            &&& c@.len() == 32
            &&& forall|i: int| 0 <= i < 32 && i < slice@.len() ==> c@[i] == slice@[i]
            &&& forall|i: int| slice@.len() <= i < 32 ==> c@[i] == 0u8
        }),
{
    let c = <CddId as FromSpec<&[u8]>>::from_spec(slice);
    CddId::lemma_bytes_determine(c, c);
    assert(c@ == fit_to(slice@, 32));
}

} // verus!
