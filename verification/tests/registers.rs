use stm32_adc::bits::{put_field, Update};
use stm32_adc::regs::{
    clock_enable_bit, is_advregen_enabled, is_enabled, AdcNum, Family, Reg, RCC_F3_ADC12EN,
    RCC_F3_ADC34EN, RCC_L4_ADCEN,
};
use stm32_adc::sampling::{smp_field_offset, smp_register};
use stm32_adc::script::advregen_startup_delay;

#[test]
fn field_update_writes_only_its_field() {
    let u = put_field(6, 5, 17);
    assert_eq!(u.mask, 0b11111 << 6);
    assert_eq!(u.bits, 17 << 6);
    let old = 0xffff_ffff;
    let new = u.applied(old);
    assert_eq!((new >> 6) & 0x1f, 17);
    assert_eq!(new & !u.mask, old & !u.mask);
}

#[test]
fn field_update_cuts_value_to_width() {
    let u = put_field(0, 4, 0x1f);
    assert_eq!(u.bits, 0xf);
    assert_eq!(u.applied(0xf0), 0xff);
}

#[test]
fn update_applies_mask_and_bits() {
    let u = Update { mask: 0x30, bits: 0x10 };
    assert_eq!(u.applied(0xff), 0xdf);
    assert_eq!(u.applied(0x00), 0x10);
}

#[test]
fn enabled_reads_aden() {
    assert!(is_enabled(0x1));
    assert!(is_enabled(0x8000_0001));
    assert!(!is_enabled(0x8000_0000));
}

#[test]
fn regulator_state_f3_is_two_bit_field() {
    assert!(is_advregen_enabled(Family::F3, 0x1000_0000));
    assert!(!is_advregen_enabled(Family::F3, 0x2000_0000));
    assert!(!is_advregen_enabled(Family::F3, 0x3000_0000));
    assert!(!is_advregen_enabled(Family::F3, 0));
}

#[test]
fn regulator_state_l4_is_one_bit() {
    assert!(is_advregen_enabled(Family::L4, 0x1000_0000));
    assert!(is_advregen_enabled(Family::L4, 0x3000_0000));
    assert!(!is_advregen_enabled(Family::L4, 0x2000_0000));
}

#[test]
fn clock_enable_masks() {
    assert_eq!(clock_enable_bit(Family::F3, AdcNum::One), RCC_F3_ADC12EN);
    assert_eq!(clock_enable_bit(Family::F3, AdcNum::Two), RCC_F3_ADC12EN);
    assert_eq!(clock_enable_bit(Family::F3, AdcNum::Three), RCC_F3_ADC34EN);
    assert_eq!(clock_enable_bit(Family::F3, AdcNum::Four), RCC_F3_ADC34EN);
    assert_eq!(clock_enable_bit(Family::L4, AdcNum::One), RCC_L4_ADCEN);
    assert_eq!(RCC_L4_ADCEN, 1 << 13);
}

#[test]
fn sampling_time_fields() {
    assert_eq!(smp_register(1), Reg::Smpr1);
    assert_eq!(smp_field_offset(1), 3);
    assert_eq!(smp_register(9), Reg::Smpr1);
    assert_eq!(smp_field_offset(9), 27);
    // Channel 11 is written to the SMP10 field.
    assert_eq!(smp_register(11), Reg::Smpr2);
    assert_eq!(smp_field_offset(11), 0);
    assert_eq!(smp_register(12), Reg::Smpr2);
    assert_eq!(smp_field_offset(12), 6);
    assert_eq!(smp_register(18), Reg::Smpr2);
    assert_eq!(smp_field_offset(18), 24);
}

#[test]
fn sampling_time_of_one_channel_keeps_the_others() {
    let old = 0x07ff_ffff;
    let u = put_field(smp_field_offset(13), 3, 0);
    let new = u.applied(old);
    for chan in [11u8, 12, 14, 15, 16, 17, 18] {
        let off = smp_field_offset(chan);
        assert_eq!((new >> off) & 7, (old >> off) & 7);
    }
    assert_eq!((new >> smp_field_offset(13)) & 7, 0);
}

#[test]
fn startup_delay_values() {
    assert_eq!(advregen_startup_delay(1), 10_000_000);
    assert_eq!(advregen_startup_delay(1_000_000), 10);
    assert_eq!(advregen_startup_delay(4_000_000), 2);
    // 10_000_000 / 8_000_000 is 1: the wait is raised to 2 cycles.
    assert_eq!(advregen_startup_delay(8_000_000), 2);
    assert_eq!(advregen_startup_delay(80_000_000), 2);
}
