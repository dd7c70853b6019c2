//! Byte strings: slicing, comparison, concatenation, and little-endian integers and bits.

use vstd::prelude::*;

verus! {

/// The integer whose little-endian base-256 digits are `b`.
pub open spec fn le_nat(b: Seq<u8>) -> nat
    decreases b.len(),
{
    if b.len() == 0 {
        0
    } else {
        b[0] as nat + 256 * le_nat(b.drop_first())
    }
}

/// The `len` low base-256 digits of `n`, least significant first.
pub open spec fn le_bytes(n: nat, len: nat) -> Seq<u8>
    decreases len,
{
    if len == 0 {
        Seq::empty()
    } else {
        seq![(n % 256) as u8] + le_bytes(n / 256, (len - 1) as nat)
    }
}

/// The string of `len` zero bytes.
pub open spec fn zeros(len: nat) -> Seq<u8> {
    Seq::new(len, |i: int| 0u8)
}

/// Bit `i` of `bytes`, counting from the least significant bit of the first byte.
pub open spec fn bit_at(bytes: Seq<u8>, i: int) -> bool {
    (bytes[i / 8] >> ((i % 8) as u8)) & 1u8 == 1u8
}

/// The first `n` bits of `bytes`, least significant bit of each byte first.
pub open spec fn bits_le(bytes: Seq<u8>, n: nat) -> Seq<bool> {
    Seq::new(n, |i: int| bit_at(bytes, i))
}

/// A string of zero bytes encodes zero.
pub proof fn lemma_le_nat_of_zeros(len: nat)
    ensures
        le_nat(zeros(len)) == 0,
    decreases len,
{
    if len > 0 {
        lemma_le_nat_of_zeros((len - 1) as nat);
        assert(zeros(len).drop_first() =~= zeros((len - 1) as nat));
    }
}

/// Zero bytes behind an encoding leave the integer as it is.
pub proof fn lemma_le_nat_ignores_trailing_zeros(b: Seq<u8>, len: nat)
    ensures
        le_nat(b + zeros(len)) == le_nat(b),
    decreases b.len(),
{
    if b.len() == 0 {
        lemma_le_nat_of_zeros(len);
        assert(b + zeros(len) =~= zeros(len));
    } else {
        lemma_le_nat_ignores_trailing_zeros(b.drop_first(), len);
        assert((b + zeros(len)).drop_first() =~= b.drop_first() + zeros(len));
    }
}

/// Encoding an integer as `len` bytes yields `len` bytes.
pub proof fn lemma_le_bytes_len(n: nat, len: nat)
    ensures
        le_bytes(n, len).len() == len,
    decreases len,
{
    if len > 0 {
        lemma_le_bytes_len(n / 256, (len - 1) as nat);
    }
}

/// Every byte string is the little-endian encoding of the integer that it encodes.
pub proof fn lemma_le_bytes_of_le_nat(b: Seq<u8>)
    ensures
        le_bytes(le_nat(b), b.len()) == b,
    decreases b.len(),
{
    if b.len() > 0 {
        lemma_le_bytes_of_le_nat(b.drop_first());
        assert(le_nat(b) % 256 == b[0] as nat);
        assert(le_nat(b) / 256 == le_nat(b.drop_first()));
        assert(b =~= seq![b[0]] + b.drop_first());
    } else {
        assert(b =~= Seq::<u8>::empty());
    }
}

/// A 64-bit integer is read back from its little-endian encoding in eight or more bytes.
pub proof fn lemma_le_nat_of_le_bytes_u64(v: u64, len: nat)
    requires
        8 <= len,
    ensures
        le_nat(le_bytes(v as nat, len)) == v as nat,
        le_bytes(v as nat, len).len() == len,
{
    reveal_with_fuel(pow256, 9);
    lemma_pow256_increases(8, len);
    lemma_le_nat_of_le_bytes(v as nat, len);
}

/// Eight bytes encode a 64-bit integer.
pub proof fn lemma_le_nat_fits_u64(b: Seq<u8>)
    requires
        b.len() == 8,
    ensures
        le_nat(b) <= u64::MAX,
{
    reveal_with_fuel(le_nat, 9);
}

/// The number of integers that `len` bytes encode.
spec fn pow256(len: nat) -> nat
    decreases len,
{
    if len == 0 {
        1
    } else {
        256 * pow256((len - 1) as nat)
    }
}

proof fn lemma_pow256_increases(a: nat, b: nat)
    requires
        a <= b,
    ensures
        pow256(a) <= pow256(b),
    decreases b,
{
    if a < b {
        lemma_pow256_increases(a, (b - 1) as nat);
    }
}

/// An integer that `len` bytes can encode is read back from its encoding.
proof fn lemma_le_nat_of_le_bytes(n: nat, len: nat)
    requires
        n < pow256(len),
    ensures
        le_nat(le_bytes(n, len)) == n,
        le_bytes(n, len).len() == len,
    decreases len,
{
    lemma_le_bytes_len(n, len);
    if len > 0 {
        lemma_le_nat_of_le_bytes(n / 256, (len - 1) as nat);
        let rest = le_bytes(n / 256, (len - 1) as nat);
        assert(le_bytes(n, len).drop_first() =~= rest);
    }
}

/// Copies the `N` bytes of `src` that begin at `start`.
pub fn take_array<const N: usize>(src: &[u8], start: usize) -> (r: [u8; N])
    requires
        start + N <= src@.len(),
    ensures
        r@ == src@.subrange(start as int, start + N),
{
    let mut out: [u8; N] = [0u8; N];
    let mut i: usize = 0;
    let len: usize = src.len();
    while i < N
        invariant
            i <= N,
            len == src@.len(),
            start + N <= len,
            forall|j: int| 0 <= j < i ==> out@[j] == src@[start + j],
        decreases N - i,
    {
        out[i] = src[start + i];
        i = i + 1;
    }
    assert(out@ =~= src@.subrange(start as int, start + N));
    out
}

/// Whether `a` and `b` hold the same bytes.
pub fn bytes_eq(a: &[u8], b: &[u8]) -> (r: bool)
    ensures
        r == (a@ == b@),
{
    if a.len() != b.len() {
        return false;
    }
    let mut i: usize = 0;
    while i < a.len()
        invariant
            i <= a@.len(),
            a@.len() == b@.len(),
            forall|j: int| 0 <= j < i ==> a@[j] == b@[j],
        decreases a@.len() - i,
    {
        if a[i] != b[i] {
            return false;
        }
        i = i + 1;
    }
    assert(a@ =~= b@);
    true
}

/// Appends the bytes of `src` to `out`.
pub fn append(out: &mut Vec<u8>, src: &[u8])
    ensures
        final(out)@ == old(out)@ + src@,
{
    let mut i: usize = 0;
    while i < src.len()
        invariant
            i <= src@.len(),
            out@ == old(out)@ + src@.take(i as int),
        decreases src@.len() - i,
    {
        out.push(src[i]);
        i = i + 1;
        assert(src@.take(i as int) =~= src@.take(i - 1).push(src@[i - 1]));
    }
    assert(src@.take(src@.len() as int) =~= src@);
}

/// Appends the first `n` bits of `bytes` to `out`, in the order of [`bits_le`].
pub fn append_bits(out: &mut Vec<bool>, bytes: &[u8], n: usize)
    requires
        n <= 8 * bytes@.len(),
    ensures
        final(out)@ == old(out)@ + bits_le(bytes@, n as nat),
{
    let mut i: usize = 0;
    while i < n
        invariant
            i <= n,
            n <= 8 * bytes@.len(),
            out@ == old(out)@ + bits_le(bytes@, i as nat),
        decreases n - i,
    {
        let shift: u8 = (i % 8) as u8;
        out.push((bytes[i / 8] >> shift) & 1u8 == 1u8);
        i = i + 1;
        assert(bits_le(bytes@, i as nat) =~= bits_le(bytes@, (i - 1) as nat).push(
            bit_at(bytes@, i - 1),
        ));
    }
}

/// Reads a 64-bit little-endian integer.
pub fn u64_from_le(b: &[u8; 8]) -> (v: u64)
    ensures
        v as nat == le_nat(b@),
{
    proof {
        reveal_with_fuel(le_nat, 9);
    }
    (b[0] as u64) + (b[1] as u64) * 0x100 + (b[2] as u64) * 0x1_0000 + (b[3] as u64) * 0x100_0000
        + (b[4] as u64) * 0x1_0000_0000 + (b[5] as u64) * 0x100_0000_0000 + (b[6] as u64)
        * 0x1_0000_0000_0000 + (b[7] as u64) * 0x100_0000_0000_0000
}

/// Writes a 64-bit integer in little-endian order.
pub fn u64_to_le(v: u64) -> (b: [u8; 8])
    ensures
        b@ == le_bytes(v as nat, 8),
{
    let v1: u64 = v / 256;
    let v2: u64 = v1 / 256;
    let v3: u64 = v2 / 256;
    let v4: u64 = v3 / 256;
    let v5: u64 = v4 / 256;
    let v6: u64 = v5 / 256;
    let v7: u64 = v6 / 256;
    let b: [u8; 8] = [
        (v % 256) as u8,
        (v1 % 256) as u8,
        (v2 % 256) as u8,
        (v3 % 256) as u8,
        (v4 % 256) as u8,
        (v5 % 256) as u8,
        (v6 % 256) as u8,
        (v7 % 256) as u8,
    ];
    proof {
        reveal_with_fuel(le_bytes, 9);
        assert(b@ =~= le_bytes(v as nat, 8));
    }
    b
}

} // verus!
