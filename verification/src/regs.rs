//! The registers the driver touches, and where their fields lie.
//!
//! Positions follow the ADC chapters of the STM32F3 and STM32L4 reference manuals;
//! the two families share the layout except for the voltage regulator bits of CR
//! and for the RCC register that switches the ADC clock on.
use vstd::prelude::*;
use crate::bits::{field, lemma_low_mask_values};

verus! {

/// A register the driver reads or writes.
#[derive(Clone, Copy, Debug, PartialEq, Eq, Structural)]
pub enum Reg {
    /// ADC_CR, the control register.
    Cr,
    /// ADC_ISR, the interrupt and status register.
    Isr,
    /// ADC_CFGR, the configuration register.
    Cfgr,
    /// ADC_SQR1, the first regular sequence register.
    Sqr1,
    /// ADC_SMPR1, sampling times of channels 0 to 9.
    Smpr1,
    /// ADC_SMPR2, sampling times of channels 10 to 18.
    Smpr2,
    /// ADC_CALFACT, the calibration factors.
    Calfact,
    /// ADC_DR, the regular data register.
    Dr,
    /// The CCR of the common registers of the ADC pair (ADCx_y_CCR or ADC_CCR).
    CommonCcr,
    /// The RCC register with the ADC clock enable bit: RCC_AHBENR on F3,
    /// RCC_AHB2ENR on L4.
    RccEnable,
}

/// The MCU family: it decides the voltage regulator fields and the clock enable bit.
#[derive(Clone, Copy, Debug, PartialEq, Eq, Structural)]
pub enum Family {
    /// STM32F3: two-bit ADVREGEN field, clock enable bit in RCC_AHBENR.
    F3,
    /// STM32L4 and L5: one-bit ADVREGEN and DEEPPWD, clock enable bit in RCC_AHB2ENR.
    L4,
}

/// Which ADC of the part.
#[derive(Clone, Copy, Debug, PartialEq, Eq, Structural)]
pub enum AdcNum {
    One,
    Two,
    Three,
    Four,
}

// ADC_CR
/// ADEN: ADC enable.
pub const CR_ADEN: u32 = 0x0000_0001;
/// ADDIS: ADC disable.
pub const CR_ADDIS: u32 = 0x0000_0002;
/// ADSTART: start a regular conversion.
pub const CR_ADSTART: u32 = 0x0000_0004;
/// JADSTART: start an injected conversion.
pub const CR_JADSTART: u32 = 0x0000_0008;
/// ADSTP: stop the regular conversion.
pub const CR_ADSTP: u32 = 0x0000_0010;
/// JADSTP: stop the injected conversion.
pub const CR_JADSTP: u32 = 0x0000_0020;
/// Offset of ADVREGEN (one bit on L4, two bits on F3).
pub const CR_ADVREGEN_OFFSET: u32 = 28;
/// ADVREGEN as a one-bit field (L4).
pub const CR_ADVREGEN: u32 = 0x1000_0000;
/// DEEPPWD: deep power down (L4).
pub const CR_DEEPPWD: u32 = 0x2000_0000;
/// ADCALDIF: calibrate for differential inputs.
pub const CR_ADCALDIF: u32 = 0x4000_0000;
/// ADCAL: start calibration; cleared by hardware when it completes.
pub const CR_ADCAL: u32 = 0x8000_0000;

// ADC_ISR
/// ADRDY: the ADC is ready.
pub const ISR_ADRDY: u32 = 0x0000_0001;
/// EOS: end of the regular sequence.
pub const ISR_EOS: u32 = 0x0000_0008;
/// OVR: overrun.
pub const ISR_OVR: u32 = 0x0000_0010;

// ADC_CFGR
/// ALIGN: data alignment.
pub const CFGR_ALIGN: u32 = 0x0000_0020;
/// OVRMOD: overrun mode.
pub const CFGR_OVRMOD: u32 = 0x0000_1000;
/// CONT: continuous conversion.
pub const CFGR_CONT: u32 = 0x0000_2000;

// ADC_SQR1
/// Offset of L, the regular sequence length minus one.
pub const SQR1_L_OFFSET: u32 = 0;
/// Width of L.
pub const SQR1_L_WIDTH: u32 = 4;
/// Offset of SQ1, the first channel of the regular sequence.
pub const SQR1_SQ1_OFFSET: u32 = 6;
/// Width of SQ1.
pub const SQR1_SQ1_WIDTH: u32 = 5;

/// Width of each SMPx field of SMPR1 and SMPR2.
pub const SMP_WIDTH: u32 = 3;

// ADC_CALFACT
/// Offset of CALFACT_S, the single-ended calibration factor.
pub const CALFACT_S_OFFSET: u32 = 0;
/// Offset of CALFACT_D, the differential calibration factor.
pub const CALFACT_D_OFFSET: u32 = 16;
/// Width of each calibration factor.
pub const CALFACT_WIDTH: u32 = 7;

// Common CCR
/// Offset of CKMODE, the ADC clock mode.
pub const CCR_CKMODE_OFFSET: u32 = 16;
/// Width of CKMODE.
pub const CCR_CKMODE_WIDTH: u32 = 2;

// RCC
/// RCC_AHBENR ADC12EN (ADC1EN on F301): clock of ADC1 and ADC2 on F3.
pub const RCC_F3_ADC12EN: u32 = 0x1000_0000;
/// RCC_AHBENR ADC34EN: clock of ADC3 and ADC4 on F3.
pub const RCC_F3_ADC34EN: u32 = 0x2000_0000;
/// RCC_AHB2ENR ADCEN: clock of the ADCs on L4.
pub const RCC_L4_ADCEN: u32 = 0x0000_2000;

/// Whether ADEN is set in the CR value `cr`.
pub open spec fn enabled_in(cr: u32) -> bool {
    cr & CR_ADEN != 0
}

/// Whether the voltage regulator is on in the CR value `cr`: ADVREGEN reads `01` on
/// F3, and ADVREGEN is set on L4.
pub open spec fn regulator_on_in(family: Family, cr: u32) -> bool {
    match family {
        Family::F3 => field(cr, CR_ADVREGEN_OFFSET, 2) == 1,
        Family::L4 => cr & CR_ADVREGEN != 0,
    }
}

/// The RCC bit that switches on the clock of ADC `unit`.
pub open spec fn clock_enable_mask(family: Family, unit: AdcNum) -> u32 {
    match family {
        Family::F3 => match unit {
            AdcNum::One | AdcNum::Two => RCC_F3_ADC12EN,
            AdcNum::Three | AdcNum::Four => RCC_F3_ADC34EN,
        },
        Family::L4 => RCC_L4_ADCEN,
    }
}

/// Check if the ADC is enabled, given the value read from CR.
pub fn is_enabled(cr: u32) -> (r: bool)
    ensures
        r == enabled_in(cr),
{
    cr & CR_ADEN != 0
}

/// Check if the voltage regulator is enabled, given the value read from CR.
pub fn is_advregen_enabled(family: Family, cr: u32) -> (r: bool)
    ensures
        r == regulator_on_in(family, cr),
{
    proof {
        lemma_low_mask_values();
    }
    match family {
        Family::F3 => (cr >> CR_ADVREGEN_OFFSET) & 0b11 == 1,
        Family::L4 => cr & CR_ADVREGEN != 0,
    }
}

/// The RCC bit that switches on the clock of ADC `unit`.
pub fn clock_enable_bit(family: Family, unit: AdcNum) -> (r: u32)
    ensures
        r == clock_enable_mask(family, unit),
{
    match family {
        Family::F3 => match unit {
            AdcNum::One | AdcNum::Two => RCC_F3_ADC12EN,
            AdcNum::Three | AdcNum::Four => RCC_F3_ADC34EN,
        },
        Family::L4 => RCC_L4_ADCEN,
    }
}

} // verus!
