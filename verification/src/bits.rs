//! Register fields: reading a field out of a 32-bit register value, and the
//! read-modify-write updates that the driver hands to the hardware.
use vstd::prelude::*;

verus! {

/// The value `2^width - 1`: the lowest `width` bits set.
pub open spec fn low_mask(width: u32) -> u32 {
    ((1u64 << width) - 1) as u32
}

/// The masks of the field widths the ADC registers use.
pub proof fn lemma_low_mask_values()
    ensures
        low_mask(1) == 1,
        low_mask(2) == 3,
        low_mask(3) == 7,
        low_mask(4) == 15,
        low_mask(5) == 31,
        low_mask(7) == 127,
        low_mask(16) == 0xffff,
{
    assert(((1u64 << 1u32) - 1) as u32 == 1) by (bit_vector);
    assert(((1u64 << 2u32) - 1) as u32 == 3) by (bit_vector);
    assert(((1u64 << 3u32) - 1) as u32 == 7) by (bit_vector);
    assert(((1u64 << 4u32) - 1) as u32 == 15) by (bit_vector);
    assert(((1u64 << 5u32) - 1) as u32 == 31) by (bit_vector);
    assert(((1u64 << 7u32) - 1) as u32 == 127) by (bit_vector);
    assert(((1u64 << 16u32) - 1) as u32 == 0xffff) by (bit_vector);
}

/// The mask of a field of `width` bits that starts at bit `offset`.
pub open spec fn field_mask(offset: u32, width: u32) -> u32 {
    low_mask(width) << offset
}

/// The value of the field of `width` bits at `offset` in the register value `v`.
pub open spec fn field(v: u32, offset: u32, width: u32) -> u32 {
    (v >> offset) & low_mask(width)
}

/// Whether a field position lies inside a 32-bit register.
pub open spec fn field_fits(offset: u32, width: u32) -> bool {
    0 < width && offset + width <= 32
}

/// Whether every bit of `mask` is set in `v`.
pub open spec fn all_set(v: u32, mask: u32) -> bool {
    v & mask == mask
}

/// A read-modify-write of one register: the bits under `mask` are replaced by
/// `bits`, the others keep the value that was read.
#[derive(Clone, Copy, Debug, PartialEq, Eq, Structural)]
pub struct Update {
    pub mask: u32,
    pub bits: u32,
}

impl Update {
    /// The register value after the update, given the value before it.
    pub open spec fn apply(self, old: u32) -> u32 {
        (old & !self.mask) | self.bits
    }

    /// No bit outside the mask is written.
    pub open spec fn wf(self) -> bool {
        self.bits & !self.mask == 0
    }

    /// Computes the register value after the update.
    pub fn applied(self, old: u32) -> (r: u32)
        ensures
            r == self.apply(old),
    {
        (old & !self.mask) | self.bits
    }
}

/// The update that sets every bit of `mask`.
pub open spec fn set_bits(mask: u32) -> Update {
    Update { mask, bits: mask }
}

/// The update that clears every bit of `mask`.
pub open spec fn clear_bits(mask: u32) -> Update {
    Update { mask, bits: 0 }
}

/// The update that sets the single-bit fields of `mask` to `on`.
pub open spec fn put_bits(mask: u32, on: bool) -> Update {
    Update { mask, bits: if on { mask } else { 0 } }
}

/// The update that writes `x` into the field of `width` bits at `offset`; like the
/// field writers of the register access layer, it keeps only the low `width` bits of `x`.
pub open spec fn field_update(offset: u32, width: u32, x: u32) -> Update {
    Update { mask: field_mask(offset, width), bits: (x & low_mask(width)) << offset }
}

/// Builds the update that writes `x` into a field.
pub fn put_field(offset: u32, width: u32, x: u32) -> (r: Update)
    requires
        field_fits(offset, width),
    ensures
        r == field_update(offset, width, x),
{
    assert(width <= 32 ==> 1 <= (1u64 << width) <= 0x1_0000_0000) by (bit_vector);
    let low: u32 = ((1u64 << width) - 1) as u32;
    Update { mask: low << offset, bits: (x & low) << offset }
}

/// A field write reads back as the value written, cut to the field's width.
pub proof fn lemma_field_update_reads_back(old: u32, offset: u32, width: u32, x: u32)
    requires
        field_fits(offset, width),
    ensures
        field(field_update(offset, width, x).apply(old), offset, width) == x & low_mask(width),
{
    assert(0 < width && offset + width <= 32 ==> ((((old & !((((1u64 << width) - 1) as u32)
        << offset)) | ((x & (((1u64 << width) - 1) as u32)) << offset)) >> offset) & (((1u64
        << width) - 1) as u32)) == x & (((1u64 << width) - 1) as u32)) by (bit_vector);
}

/// A field write leaves every bit outside the field as it was, and writes nothing
/// outside its mask.
pub proof fn lemma_field_update_frame(old: u32, offset: u32, width: u32, x: u32)
    requires
        field_fits(offset, width),
    ensures
        field_update(offset, width, x).wf(),
        field_update(offset, width, x).apply(old) & !field_mask(offset, width) == old
            & !field_mask(offset, width),
{
    assert(0 < width && offset + width <= 32 ==> ((x & (((1u64 << width) - 1) as u32)) << offset)
        & !((((1u64 << width) - 1) as u32) << offset) == 0) by (bit_vector);
    assert(0 < width && offset + width <= 32 ==> ((old & !((((1u64 << width) - 1) as u32)
        << offset)) | ((x & (((1u64 << width) - 1) as u32)) << offset)) & !((((1u64 << width)
        - 1) as u32) << offset) == old & !((((1u64 << width) - 1) as u32) << offset))
        by (bit_vector);
}

/// A write of single-bit fields leaves them all set (or all clear) and leaves every
/// other bit as it was.
pub proof fn lemma_put_bits(old: u32, mask: u32, on: bool)
    ensures
        put_bits(mask, on).wf(),
        on ==> all_set(put_bits(mask, on).apply(old), mask),
        !on ==> put_bits(mask, on).apply(old) & mask == 0,
        put_bits(mask, on).apply(old) & !mask == old & !mask,
{
    assert(mask & !mask == 0) by (bit_vector);
    assert(0u32 & !mask == 0) by (bit_vector);
    assert(((old & !mask) | mask) & mask == mask) by (bit_vector);
    assert(((old & !mask) | 0u32) & mask == 0) by (bit_vector);
    assert(((old & !mask) | mask) & !mask == old & !mask) by (bit_vector);
    assert(((old & !mask) | 0u32) & !mask == old & !mask) by (bit_vector);
}

} // verus!
