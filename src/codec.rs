//! Big-endian fixed-width encoding of the integers that make up every frame.
use vstd::prelude::*;

verus! {

/// The two bytes of `v`, most significant first.
pub open spec fn be_u16(v: u16) -> Seq<u8> {
    seq![(v / 256) as u8, (v % 256) as u8]
}

/// The value of two bytes read most significant first.
pub open spec fn u16_of(hi: u8, lo: u8) -> u16 {
    (hi as int * 256 + lo as int) as u16
}

pub proof fn lemma_u16_round_trip(v: u16)
    ensures
        u16_of(be_u16(v)[0], be_u16(v)[1]) == v,
{
}

pub proof fn lemma_bytes_round_trip(hi: u8, lo: u8)
    ensures
        be_u16(u16_of(hi, lo)) == seq![hi, lo],
{
    assert(be_u16(u16_of(hi, lo)) =~= seq![hi, lo]);
}

/// Appends the two big-endian bytes of `v` to `out`.
pub fn push_u16(out: &mut Vec<u8>, v: u16)
    ensures
        final(out)@ == old(out)@ + be_u16(v),
{
    out.push((v / 256) as u8);
    out.push((v % 256) as u8);
    assert(final(out)@ =~= old(out)@ + be_u16(v));
}

/// Reads a big-endian `u16` from `data` at `pos`.
pub fn read_u16(data: &[u8], pos: usize) -> (r: u16)
    requires
        pos + 2 <= data@.len(),
    ensures
        r == u16_of(data@[pos as int], data@[pos + 1]),
{
    (data[pos] as u16) * 256 + (data[pos + 1] as u16)
}

} // verus!
