//! Where the sampling time of each channel lives: SMPR1 holds channels 1 to 9,
//! SMPR2 the channels above 10.
use vstd::prelude::*;
use crate::bits::{field, field_fits, field_update};
use crate::regs::Reg;

verus! {

/// The channels whose sampling time the driver can set: 1 to 9 and 11 to 18.
/// Channel 0, channel 10 and the channels above 18 have no entry in its table.
pub open spec fn valid_channel(chan: u8) -> bool {
    (1 <= chan <= 9) || (11 <= chan <= 18)
}

/// The register that holds the sampling time of `chan`.
pub open spec fn smp_reg(chan: u8) -> Reg {
    if chan <= 9 { Reg::Smpr1 } else { Reg::Smpr2 }
}

/// The offset of the SMPx field written for `chan`: SMPx lies at `3 * x` in SMPR1
/// and at `3 * (x - 10)` in SMPR2; channel 11 is written to the SMP10 field.
pub open spec fn smp_offset(chan: u8) -> u32 {
    if chan <= 9 {
        (3 * chan) as u32
    } else if chan == 11 {
        0
    } else {
        (3 * (chan - 10)) as u32
    }
}

/// The register of the sampling time of `chan`.
pub fn smp_register(chan: u8) -> (r: Reg)
    requires
        valid_channel(chan),
    ensures
        r == smp_reg(chan),
{
    if chan <= 9 { Reg::Smpr1 } else { Reg::Smpr2 }
}

/// The offset of the sampling time field of `chan`.
pub fn smp_field_offset(chan: u8) -> (r: u32)
    requires
        valid_channel(chan),
    ensures
        r == smp_offset(chan),
        field_fits(r, 3),
{
    if chan <= 9 {
        3 * chan as u32
    } else if chan == 11 {
        0
    } else {
        3 * (chan as u32 - 10)
    }
}

/// Setting the sampling time of one channel leaves the sampling time of every other
/// channel as it was.
pub proof fn lemma_sampling_fields_independent(a: u8, b: u8, old: u32, x: u32)
    requires
        valid_channel(a),
        valid_channel(b),
        a != b,
        smp_reg(a) == smp_reg(b),
    ensures
        field(field_update(smp_offset(a), 3, x).apply(old), smp_offset(b), 3) == field(
            old,
            smp_offset(b),
            3,
        ),
{
    let oa = smp_offset(a);
    let ob = smp_offset(b);
    assert(oa + 3 <= ob || ob + 3 <= oa);
    assert(oa + 3 <= 32 && ob + 3 <= 32);
    assert((oa + 3 <= ob || ob + 3 <= oa) && oa + 3 <= 32 && ob + 3 <= 32 ==> ((((old & !((((1u64
        << 3u32) - 1) as u32) << oa)) | ((x & (((1u64 << 3u32) - 1) as u32)) << oa)) >> ob)
        & (((1u64 << 3u32) - 1) as u32)) == ((old >> ob) & (((1u64 << 3u32) - 1) as u32)))
        by (bit_vector);
}

} // verus!
