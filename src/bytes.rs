//! Little-endian integers and fixed-size keys read from and written to bytes.
use vstd::prelude::*;

verus! {

/// A 32-byte account address.
pub type Key = [u8; 32];

/// The eight bytes of `x`, least significant first.
pub open spec fn le_bytes(x: u64) -> Seq<u8> {
    seq![
        x as u8,
        (x >> 8u64) as u8,
        (x >> 16u64) as u8,
        (x >> 24u64) as u8,
        (x >> 32u64) as u8,
        (x >> 40u64) as u8,
        (x >> 48u64) as u8,
        (x >> 56u64) as u8,
    ]
}

/// The integer whose little-endian bytes are the first eight of `b`.
pub open spec fn le_value(b: Seq<u8>) -> u64
    recommends
        b.len() >= 8,
{
    b[0] as u64 | (b[1] as u64) << 8u64 | (b[2] as u64) << 16u64 | (b[3] as u64) << 24u64 | (
    b[4] as u64) << 32u64 | (b[5] as u64) << 40u64 | (b[6] as u64) << 48u64 | (b[7] as u64)
        << 56u64
}

/// Reading back the bytes of an integer gives the integer.
pub proof fn lemma_le_value_of_bytes(x: u64)
    ensures
        le_bytes(x).len() == 8,
        le_value(le_bytes(x)) == x,
{
    let b = le_bytes(x);
    let (b0, b1, b2, b3) = (x as u8, (x >> 8u64) as u8, (x >> 16u64) as u8, (x >> 24u64) as u8);
    let (b4, b5, b6, b7) = (
        (x >> 32u64) as u8,
        (x >> 40u64) as u8,
        (x >> 48u64) as u8,
        (x >> 56u64) as u8,
    );
    assert(b[0] == b0 && b[1] == b1 && b[2] == b2 && b[3] == b3);
    assert(b[4] == b4 && b[5] == b5 && b[6] == b6 && b[7] == b7);
    assert(x == (x as u8 as u64 | ((x >> 8u64) as u8 as u64) << 8u64 | ((x >> 16u64) as u8 as u64)
        << 16u64 | ((x >> 24u64) as u8 as u64) << 24u64 | ((x >> 32u64) as u8 as u64) << 32u64 | ((x
        >> 40u64) as u8 as u64) << 40u64 | ((x >> 48u64) as u8 as u64) << 48u64 | ((x
        >> 56u64) as u8 as u64) << 56u64)) by (bit_vector);
}

/// The integer held little-endian in `b[off .. off + 8]`.
pub fn read_u64_le(b: &[u8], off: usize) -> (r: u64)
    requires
        off + 8 <= b@.len(),
    ensures
        r == le_value(b@.subrange(off as int, off + 8)),
{
    let s = Ghost(b@.subrange(off as int, off + 8));
    assert(s@[0] == b[off as int] && s@[1] == b[off + 1] && s@[2] == b[off + 2]);
    assert(s@[3] == b[off + 3] && s@[4] == b[off + 4] && s@[5] == b[off + 5]);
    assert(s@[6] == b[off + 6] && s@[7] == b[off + 7]);
    b[off] as u64 | (b[off + 1] as u64) << 8u64 | (b[off + 2] as u64) << 16u64 | (b[off + 3] as u64)
        << 24u64 | (b[off + 4] as u64) << 32u64 | (b[off + 5] as u64) << 40u64 | (b[off
        + 6] as u64) << 48u64 | (b[off + 7] as u64) << 56u64
}

/// Overwrites `b[off .. off + 8]` with the little-endian bytes of `x`.
pub fn write_u64_le(b: &mut [u8], off: usize, x: u64)
    requires
        off + 8 <= old(b)@.len(),
    ensures
        final(b)@.len() == old(b)@.len(),
        final(b)@.subrange(off as int, off + 8) == le_bytes(x),
        forall|i: int|
            0 <= i < old(b)@.len() && !(off <= i < off + 8) ==> #[trigger] final(b)@[i]
                == old(b)@[i],
{
    b[off] = x as u8;
    b[off + 1] = (x >> 8u64) as u8;
    b[off + 2] = (x >> 16u64) as u8;
    b[off + 3] = (x >> 24u64) as u8;
    b[off + 4] = (x >> 32u64) as u8;
    b[off + 5] = (x >> 40u64) as u8;
    b[off + 6] = (x >> 48u64) as u8;
    b[off + 7] = (x >> 56u64) as u8;
    assert(b@.subrange(off as int, off + 8) =~= le_bytes(x));
}

/// The 32 bytes `b[off .. off + 32]` as a key.
pub fn read_key(b: &[u8], off: usize) -> (k: Key)
    requires
        off + 32 <= b@.len(),
    ensures
        k@ == b@.subrange(off as int, off + 32),
{
    let mut k: Key = [0u8; 32];
    let mut i: usize = 0;
    while i < 32
        invariant
            off + 32 <= b.len(),
            i <= 32,
            k@.len() == 32,
            forall|j: int| 0 <= j < i ==> #[trigger] k@[j] == b@[off + j],
        decreases 32 - i,
    {
        k[i] = b[off + i];
        i = i + 1;
    }
    assert(k@ =~= b@.subrange(off as int, off + 32));
    k
}

/// Overwrites `b[off .. off + 32]` with the bytes of `k`.
pub fn write_key(b: &mut [u8], off: usize, k: &Key)
    requires
        off + 32 <= old(b)@.len(),
    ensures
        final(b)@.len() == old(b)@.len(),
        final(b)@.subrange(off as int, off + 32) == k@,
        forall|i: int|
            0 <= i < old(b)@.len() && !(off <= i < off + 32) ==> #[trigger] final(b)@[i]
                == old(b)@[i],
{
    let mut i: usize = 0;
    while i < 32
        invariant
            off + 32 <= b.len(),
            b@.len() == old(b)@.len(),
            i <= 32,
            k@.len() == 32,
            forall|j: int| 0 <= j < i ==> #[trigger] b@[off + j] == k@[j],
            forall|j: int|
                0 <= j < old(b)@.len() && !(off <= j < off + i) ==> #[trigger] b@[j]
                    == old(b)@[j],
        decreases 32 - i,
    {
        b[off + i] = k[i];
        i = i + 1;
    }
    assert forall|j: int| 0 <= j < 32 implies #[trigger] b@.subrange(off as int, off + 32)[j]
        == k@[j] by {
        assert(b@[off + j] == k@[j]);
    }
    assert(b@.subrange(off as int, off + 32) =~= k@);
}

/// Whether two keys are the same.
pub fn same_key(a: &Key, b: &Key) -> (r: bool)
    ensures
        r == (*a == *b),
        r == (a@ == b@),
{
    let mut i: usize = 0;
    while i < 32
        invariant
            i <= 32,
            forall|j: int| 0 <= j < i ==> #[trigger] a@[j] == b@[j],
        decreases 32 - i,
    {
        if a[i] != b[i] {
            assert(a@[i as int] != b@[i as int]);
            return false;
        }
        i = i + 1;
    }
    assert(*a =~= *b);
    true
}

} // verus!
