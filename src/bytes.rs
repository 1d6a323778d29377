use vstd::prelude::*;

verus! {

/// The unsigned integer that eight bytes hold, least significant first.
pub open spec fn u64_from_le(b: Seq<u8>) -> u64 {
    (b[0] as u64) | ((b[1] as u64) << 8u64) | ((b[2] as u64) << 16u64) | ((b[3] as u64) << 24u64)
        | ((b[4] as u64) << 32u64) | ((b[5] as u64) << 40u64) | ((b[6] as u64) << 48u64) | ((
    b[7] as u64) << 56u64)
}

/// The eight bytes of `v`, least significant first.
pub open spec fn u64_to_le(v: u64) -> Seq<u8> {
    seq![
        (v & 0xffu64) as u8,
        ((v >> 8u64) & 0xffu64) as u8,
        ((v >> 16u64) & 0xffu64) as u8,
        ((v >> 24u64) & 0xffu64) as u8,
        ((v >> 32u64) & 0xffu64) as u8,
        ((v >> 40u64) & 0xffu64) as u8,
        ((v >> 48u64) & 0xffu64) as u8,
        ((v >> 56u64) & 0xffu64) as u8,
    ]
}

/// Reading eight bytes as an integer and writing it back gives the same bytes.
pub proof fn lemma_le_bytes_round_trip(s: Seq<u8>)
    requires
        s.len() == 8,
    ensures
        u64_to_le(u64_from_le(s)) == s,
{
    let (b0, b1, b2, b3, b4, b5, b6, b7) = (s[0], s[1], s[2], s[3], s[4], s[5], s[6], s[7]);
    let v = u64_from_le(s);
    assert(v == (b0 as u64) | ((b1 as u64) << 8u64) | ((b2 as u64) << 16u64) | ((b3 as u64)
        << 24u64) | ((b4 as u64) << 32u64) | ((b5 as u64) << 40u64) | ((b6 as u64) << 48u64) | ((
    b7 as u64) << 56u64));
    assert((v & 0xffu64) as u8 == b0 && ((v >> 8u64) & 0xffu64) as u8 == b1 && ((v >> 16u64)
        & 0xffu64) as u8 == b2 && ((v >> 24u64) & 0xffu64) as u8 == b3 && ((v >> 32u64)
        & 0xffu64) as u8 == b4 && ((v >> 40u64) & 0xffu64) as u8 == b5 && ((v >> 48u64)
        & 0xffu64) as u8 == b6 && ((v >> 56u64) & 0xffu64) as u8 == b7) by (bit_vector)
        requires
            v == (b0 as u64) | ((b1 as u64) << 8u64) | ((b2 as u64) << 16u64) | ((b3 as u64)
                << 24u64) | ((b4 as u64) << 32u64) | ((b5 as u64) << 40u64) | ((b6 as u64)
                << 48u64) | ((b7 as u64) << 56u64),
    ;
    assert(u64_to_le(v) =~= s);
}

/// Writing an integer as eight bytes and reading them back gives the integer.
pub proof fn lemma_le_value_round_trip(v: u64)
    ensures
        u64_from_le(u64_to_le(v)) == v,
{
    let s = u64_to_le(v);
    assert(((v & 0xffu64) as u8 as u64) | ((((v >> 8u64) & 0xffu64) as u8 as u64) << 8u64) | ((((
    v >> 16u64) & 0xffu64) as u8 as u64) << 16u64) | ((((v >> 24u64) & 0xffu64) as u8 as u64)
        << 24u64) | ((((v >> 32u64) & 0xffu64) as u8 as u64) << 32u64) | ((((v >> 40u64)
        & 0xffu64) as u8 as u64) << 40u64) | ((((v >> 48u64) & 0xffu64) as u8 as u64) << 48u64)
        | ((((v >> 56u64) & 0xffu64) as u8 as u64) << 56u64) == v) by (bit_vector);
}

/// Reads the eight bytes at `off` as a little-endian integer.
pub fn read_u64_le(data: &[u8], off: usize) -> (r: u64)
    requires
        off + 8 <= data@.len(),
    ensures
        r == u64_from_le(data@.subrange(off as int, off + 8)),
{
    let s = Ghost(data@.subrange(off as int, off + 8));
    assert(s@[0] == data@[off as int] && s@[1] == data@[off + 1] && s@[2] == data@[off + 2]
        && s@[3] == data@[off + 3] && s@[4] == data@[off + 4] && s@[5] == data@[off + 5]
        && s@[6] == data@[off + 6] && s@[7] == data@[off + 7]);
    (data[off] as u64) | ((data[off + 1] as u64) << 8u64) | ((data[off + 2] as u64) << 16u64) | ((
    data[off + 3] as u64) << 24u64) | ((data[off + 4] as u64) << 32u64) | ((data[off + 5] as u64)
        << 40u64) | ((data[off + 6] as u64) << 48u64) | ((data[off + 7] as u64) << 56u64)
}

/// Appends the eight little-endian bytes of `v`.
pub fn push_u64_le(out: &mut Vec<u8>, v: u64)
    ensures
        final(out)@ == old(out)@ + u64_to_le(v),
{
    out.push((v & 0xff) as u8);
    out.push(((v >> 8u64) & 0xff) as u8);
    out.push(((v >> 16u64) & 0xff) as u8);
    out.push(((v >> 24u64) & 0xff) as u8);
    out.push(((v >> 32u64) & 0xff) as u8);
    out.push(((v >> 40u64) & 0xff) as u8);
    out.push(((v >> 48u64) & 0xff) as u8);
    out.push(((v >> 56u64) & 0xff) as u8);
    assert(final(out)@ =~= old(out)@ + u64_to_le(v));
}

/// Appends the bytes of a 32-byte key.
pub fn push_key(out: &mut Vec<u8>, k: &[u8; 32])
    ensures
        final(out)@ == old(out)@ + k@,
{
    let ghost start = out@;
    let mut i: usize = 0;
    while i < 32
        invariant
            i <= 32,
            k@.len() == 32,
            out@ == start + k@.subrange(0, i as int),
        decreases 32 - i,
    {
        out.push(k[i]);
        i = i + 1;
        assert(out@ =~= start + k@.subrange(0, i as int));
    }
    assert(k@.subrange(0, 32) =~= k@);
}

/// Copies the 32 bytes at `off` into a key.
pub fn read_key(data: &[u8], off: usize) -> (r: [u8; 32])
    requires
        off + 32 <= data@.len(),
    ensures
        r@ == data@.subrange(off as int, off + 32),
{
    let n = data.len();
    let mut k: [u8; 32] = [0u8; 32];
    let mut i: usize = 0;
    while i < 32
        invariant
            i <= 32,
            off + 32 <= n,
            n == data@.len(),
            k@.len() == 32,
            k@.subrange(0, i as int) == data@.subrange(off as int, off + i),
        decreases 32 - i,
    {
        k[i] = data[off + i];
        i = i + 1;
        assert(k@.subrange(0, i as int) =~= data@.subrange(off as int, off + i));
    }
    assert(k@ =~= k@.subrange(0, 32));
    k
}

} // verus!
