//! Helpers on byte vectors: copies, padding and checked multiplication.

use vstd::prelude::*;

verus! {

/// `n` zero bytes.
pub open spec fn zeros(n: nat) -> Seq<u8> {
    Seq::new(n, |i: int| 0u8)
}

/// `s`, followed by as many zero bytes as it takes to reach `length`; `s`
/// itself where it is that long already.
pub open spec fn right_padded(s: Seq<u8>, length: nat) -> Seq<u8> {
    if length <= s.len() {
        s
    } else {
        s + zeros((length - s.len()) as nat)
    }
}

/// The first `src.len()` places hold `src`, the rest of the 32 hold zero.
pub open spec fn filled32(src: Seq<u8>) -> Seq<u8> {
    Seq::new(32, |i: int| if i < src.len() { src[i] } else { 0u8 })
}

/// A new vector with the same bytes.
pub fn copy_from(src: &Vec<u8>) -> (v: Vec<u8>)
    ensures
        v@ == src@,
{
    let mut v: Vec<u8> = Vec::new();
    let mut i: usize = 0;
    while i < src.len()
        invariant
            i <= src.len(),
            v@ == src@.subrange(0, i as int),
        decreases src.len() - i,
    {
        v.push(src[i]);
        i += 1;
        assert(v@ =~= src@.subrange(0, i as int));
    }
    assert(src@.subrange(0, i as int) =~= src@);
    v
}

/// The bytes of `src` at the front of a 32-byte array, zeros behind them.
pub fn copy_to_bytes32(src: &Vec<u8>) -> (r: [u8; 32])
    requires
        src.len() <= 32,
    ensures
        r@ == filled32(src@),
{
    let mut out = [0u8;32];
    let mut i: usize = 0;
    while i < src.len()
        invariant
            i <= src.len() <= 32,
            out@.len() == 32,
            forall|j: int| 0 <= j < i ==> out@[j] == src@[j],
            forall|j: int| i <= j < 32 ==> out@[j] == 0u8,
        decreases src.len() - i,
    {
        out[i] = src[i];
        i += 1;
    }
    assert(out@ =~= filled32(src@));
    out
}

/// Replaces what `dst` holds by the bytes of `src`.
pub fn copy_between(src: &Vec<u8>, dst: &mut Vec<u8>)
    ensures
        final(dst)@ == src@,
{
    dst.clear();
    let mut i: usize = 0;
    while i < src.len()
        invariant
            i <= src.len(),
            dst@ == src@.subrange(0, i as int),
        decreases src.len() - i,
    {
        dst.push(src[i]);
        i += 1;
        assert(dst@ =~= src@.subrange(0, i as int));
    }
    assert(src@.subrange(0, i as int) =~= src@);
}

/// `slice` padded on the right with zeros up to `length` bytes; a copy of
/// `slice` where it is at least that long.
pub fn right_pad_bytes(slice: &Vec<u8>, length: u64) -> (r: Vec<u8>)
    requires
        length <= usize::MAX,
    ensures
        r@ == right_padded(slice@, length as nat),
{
    let mut padded = copy_from(slice);
    let n: usize = length as usize;
    while padded.len() < n
        invariant
            slice@.len() <= padded@.len(),
            padded@.len() <= n || padded@.len() == slice@.len(),
            padded@ == slice@ + zeros((padded@.len() - slice@.len()) as nat),
        decreases n - padded.len(),
    {
        padded.push(0u8);
        assert(padded@ =~= slice@ + zeros((padded@.len() - slice@.len()) as nat));
    }
    assert(padded@ =~= right_padded(slice@, length as nat));
    padded
}

/// The product modulo two to the power 64, and whether the true product is
/// beyond 64 bits.
pub fn safe_mul(x: u64, y: u64) -> (r: (u64, bool))
    ensures
        r.0 == (x * y) % 0x1_0000_0000_0000_0000,
        r.1 == (x * y > u64::MAX),
{
    assert(x * y <= 0xffff_ffff_ffff_ffff * 0xffff_ffff_ffff_ffff) by (nonlinear_arith)
        requires
            x <= 0xffff_ffff_ffff_ffff,
            y <= 0xffff_ffff_ffff_ffff,
    ;
    let p: u128 = (x as u128) * (y as u128);
    ((p % 0x1_0000_0000_0000_0000u128) as u64, p > 0xffff_ffff_ffff_ffffu128)
}

/// The bytes of `v`, kept in their order, at the front of a 32-byte array.
pub fn levec_to_bytes32(v: &Vec<u8>) -> (r: [u8; 32])
    requires
        v.len() <= 32,
    ensures
        r@ == filled32(v@),
{
    copy_to_bytes32(v)
}

/// The bytes of `v`, last byte first, at the front of a 32-byte array.
pub fn bevec_to_bytes32(v: &Vec<u8>) -> (r: [u8; 32])
    requires
        v.len() <= 32,
    ensures
        r@ == filled32(v@.reverse()),
{
    let mut out = [0u8;32];
    let n: usize = v.len();
    let mut pos: usize = 0;
    while pos < n
        invariant
            n == v.len(),
            pos <= n <= 32,
            out@.len() == 32,
            forall|j: int| 0 <= j < pos ==> out@[j] == v@[n - 1 - j],
            forall|j: int| pos <= j < 32 ==> out@[j] == 0u8,
        decreases n - pos,
    {
        out[pos] = v[n - 1 - pos];
        pos += 1;
    }
    assert(out@ =~= filled32(v@.reverse()));
    out
}

/// The bytes in the opposite order.
pub fn reversed(v: &[u8]) -> (r: Vec<u8>)
    ensures
        r@ == v@.reverse(),
{
    let n: usize = v.len();
    let mut out: Vec<u8> = Vec::new();
    let mut i: usize = 0;
    while i < n
        invariant
            n == v@.len(),
            i <= n,
            out@.len() == i,
            forall|j: int| 0 <= j < i ==> out@[j] == v@[n - 1 - j],
        decreases n - i,
    {
        out.push(v[n - 1 - i]);
        i += 1;
    }
    assert(out@ =~= v@.reverse());
    out
}

} // verus!
