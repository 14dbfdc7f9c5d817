use vstd::prelude::*;

verus! {

/// The bits of `value` selected by `mask` placed at `shift`, moved down to
/// bit 0: how a field of a register value reads.
fn read_field(value: u32, mask: u32, shift: u32) -> (r: u32)
    requires
        shift < 32,
    ensures
        r == (value & (mask << shift)) >> shift,
{
    (value & (mask << shift)) >> shift
}

/// Accessor of the Cache Size ID Register (CSSIDR), whose fields are
/// `LineSize` (bits 0..3), `Associativity` (bits 3..13) and `NumSets`
/// (bits 13..28).
pub struct CSSIDRAccessor;

impl CSSIDRAccessor {
    /// `LineSize`: (Log2(Number of words in cache line)) - 2.
    pub fn line_size(&self, value: u32) -> (r: u32)
        ensures
            r == value & 0x7,
    {
        let r = read_field(value, 0x7, 0);
        assert((value & (0x7u32 << 0u32)) >> 0u32 == value & 0x7) by (bit_vector);
        r
    }

    /// `Associativity`: (Associativity of cache) - 1.
    pub fn associativity(&self, value: u32) -> (r: u32)
        ensures
            r == (value >> 3) & 0x3ff,
    {
        let r = read_field(value, 0x3ff, 3);
        assert((value & (0x3ffu32 << 3u32)) >> 3u32 == (value >> 3) & 0x3ff) by (bit_vector);
        r
    }

    /// `NumSets`: (Number of sets in cache) - 1.
    pub fn num_sets(&self, value: u32) -> (r: u32)
        ensures
            r == (value >> 13) & 0x7fff,
    {
        let r = read_field(value, 0x7fff, 13);
        assert((value & (0x7fffu32 << 13u32)) >> 13u32 == (value >> 13) & 0x7fff) by (bit_vector);
        r
    }
}

/// The three fields of CSSIDR tile its low 28 bits: putting each field read
/// from a value back in place gives those bits of the value.
pub proof fn lemma_cssidr_fields_tile(value: u32)
    ensures
        value & 0x0fff_ffff == (value & 0x7) | (((value >> 3) & 0x3ff) << 3) | (((value >> 13)
            & 0x7fff) << 13),
{
    assert(value & 0x0fff_ffff == (value & 0x7) | (((value >> 3) & 0x3ff) << 3) | (((value >> 13)
        & 0x7fff) << 13)) by (bit_vector);
}

} // verus!
