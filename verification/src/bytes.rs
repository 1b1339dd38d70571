use vstd::prelude::*;

verus! {

/// `n` zero bytes.
pub open spec fn zero_bytes(n: nat) -> Seq<u8> {
    Seq::new(n, |i: int| 0u8)
}

/// The first `n` bytes of `s`; where `s` is shorter, the missing bytes are zero.
pub open spec fn fit_to(s: Seq<u8>, n: nat) -> Seq<u8> {
    Seq::new(n, |i: int| if i < s.len() { s[i] } else { 0u8 })
}

/// The 16 bytes of `x`, least significant first.
pub open spec fn le_bytes_u128(x: u128) -> Seq<u8> {
    Seq::new(16, |i: int| (x >> ((8 * i) as u32)) as u8)
}

/// An array whose first `n` bytes are those of `v`.
pub open spec fn array_from_seq<const N: usize>(v: Seq<u8>, n: nat) -> [u8; N]
    decreases n,
{
    if n == 0 {
        arbitrary()
    } else {
        vstd::array::spec_array_update(array_from_seq::<N>(v, (n - 1) as nat), n - 1, v[n - 1])
    }
}

/// Every byte string of length `N` is the view of some `N`-byte array.
pub proof fn lemma_seq_is_array_view<const N: usize>(v: Seq<u8>)
    requires
        v.len() == N,
    ensures
        array_from_seq::<N>(v, N as nat)@ == v,
{
    lemma_array_from_seq_prefix::<N>(v, N as nat);
    assert(array_from_seq::<N>(v, N as nat)@ =~= v);
}

proof fn lemma_array_from_seq_prefix<const N: usize>(v: Seq<u8>, n: nat)
    requires
        v.len() == N,
        n <= N,
    ensures
        array_from_seq::<N>(v, n)@.len() == N,
        forall|i: int| 0 <= i < n ==> #[trigger] array_from_seq::<N>(v, n)@[i] == v[i],
    decreases n,
{
    if n > 0 {
        lemma_array_from_seq_prefix::<N>(v, (n - 1) as nat);
    }
}

/// Byte-wise equality of two arrays of the same length.
pub fn arrays_equal<const N: usize>(a: &[u8; N], b: &[u8; N]) -> (r: bool)
    ensures
        r == (a@ == b@),
{
    let mut i: usize = 0;
    while i < N
        invariant
            i <= N,
            a@.len() == N,
            b@.len() == N,
            forall|j: int| 0 <= j < i ==> a@[j] == b@[j],
        decreases N - i,
    {
        if a[i] != b[i] {
            return false;
        }
        i = i + 1;
    }
    assert(a@ =~= b@);
    true
}

/// The first 16 bytes of `s`, zero-padded where `s` is shorter.
pub fn fit_16(s: &[u8]) -> (r: [u8; 16])
    ensures
        r@ == fit_to(s@, 16),
{
    let mut r = [0u8; 16];
    let limit: usize = if s.len() < 16 { s.len() } else { 16 };
    let mut i: usize = 0;
    while i < limit
        invariant
            i <= limit,
            limit <= 16,
            limit <= s@.len(),
            limit == 16 || limit == s@.len(),
            r@.len() == 16,
            forall|j: int| 0 <= j < i ==> r@[j] == s@[j],
            forall|j: int| i <= j < 16 ==> r@[j] == 0u8,
        decreases limit - i,
    {
        r[i] = s[i];
        i = i + 1;
    }
    assert(r@ =~= fit_to(s@, 16));
    r
}

/// The first 32 bytes of `s`, zero-padded where `s` is shorter.
pub fn fit_32(s: &[u8]) -> (r: [u8; 32])
    ensures
        r@ == fit_to(s@, 32),
{
    let mut r = [0u8; 32];
    let limit: usize = if s.len() < 32 { s.len() } else { 32 };
    let mut i: usize = 0;
    while i < limit
        invariant
            i <= limit,
            limit <= 32,
            limit <= s@.len(),
            limit == 32 || limit == s@.len(),
            r@.len() == 32,
            forall|j: int| 0 <= j < i ==> r@[j] == s@[j],
            forall|j: int| i <= j < 32 ==> r@[j] == 0u8,
        decreases limit - i,
    {
        r[i] = s[i];
        i = i + 1;
    }
    assert(r@ =~= fit_to(s@, 32));
    r
}

} // verus!
