use stm32_adc::config::{Align, ClockMode, InputType, OperationMode, SampleTime};
use stm32_adc::AdcChannel::{
    C1, C10, C11, C12, C13, C14, C15, C16, C17, C18, C19, C2, C20, C3, C4, C5, C6, C7, C8, C9,
};

#[test]
fn sample_time_default_is_t1() {
    assert_eq!(SampleTime::default(), SampleTime::T1);
}

#[test]
fn clock_mode_default_is_sync_div2() {
    assert_eq!(ClockMode::default(), ClockMode::SyncDiv2);
}

#[test]
fn align_default_is_right() {
    assert_eq!(Align::default(), Align::Right);
}

#[test]
fn sample_time_codes() {
    let all = [
        SampleTime::T1,
        SampleTime::T2,
        SampleTime::T4,
        SampleTime::T7,
        SampleTime::T19,
        SampleTime::T61,
        SampleTime::T181,
        SampleTime::T601,
    ];
    for (i, t) in all.iter().enumerate() {
        assert_eq!(t.bits() as usize, i);
    }
}

#[test]
fn clock_mode_codes() {
    assert_eq!(ClockMode::ASYNC.bits(), 0b00);
    assert_eq!(ClockMode::SyncDiv1.bits(), 0b01);
    assert_eq!(ClockMode::SyncDiv2.bits(), 0b10);
    assert_eq!(ClockMode::SyncDiv4.bits(), 0b11);
}

#[test]
fn other_codes() {
    assert_eq!(InputType::SingleEnded.bits(), 0);
    assert_eq!(InputType::Differential.bits(), 1);
    assert_eq!(OperationMode::OneShot.bits(), 0);
    assert_eq!(OperationMode::Continuous.bits(), 1);
    assert_eq!(Align::Right.bits(), 0);
    assert_eq!(Align::Left.bits(), 1);
}

#[test]
fn channel_numbers() {
    let got = [
        C1::channel(),
        C2::channel(),
        C3::channel(),
        C4::channel(),
        C5::channel(),
        C6::channel(),
        C7::channel(),
        C8::channel(),
        C9::channel(),
        C10::channel(),
        C11::channel(),
        C12::channel(),
        C13::channel(),
        C14::channel(),
        C15::channel(),
        C16::channel(),
        C17::channel(),
        C18::channel(),
        C19::channel(),
        C20::channel(),
    ];
    for (i, c) in got.iter().enumerate() {
        assert_eq!(*c as usize, i + 1);
    }
}
