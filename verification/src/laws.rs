//! What the driver does against a given hardware, and the properties it keeps.
use vstd::prelude::*;
use crate::adc::AdcModel;
use crate::bits::{
    clear_bits, field, field_update, lemma_field_update_frame, lemma_field_update_reads_back,
    lemma_low_mask_values, lemma_put_bits, put_bits, set_bits,
};
use crate::config::{Align, ClockMode, InputType, SampleTime};
use crate::regs::{
    clock_enable_mask, enabled_in, regulator_on_in, Family, Reg, CALFACT_D_OFFSET,
    CALFACT_S_OFFSET, CALFACT_WIDTH, CCR_CKMODE_OFFSET, CCR_CKMODE_WIDTH, CFGR_ALIGN, CFGR_CONT,
    CFGR_OVRMOD, CR_ADCAL, CR_ADDIS, CR_ADEN, CR_ADSTART, CR_ADSTP, CR_ADVREGEN,
    CR_ADVREGEN_OFFSET, CR_DEEPPWD, CR_JADSTART, CR_JADSTP, ISR_ADRDY, ISR_EOS, ISR_OVR,
    SMP_WIDTH, SQR1_L_OFFSET, SQR1_L_WIDTH, SQR1_SQ1_OFFSET, SQR1_SQ1_WIDTH,
};
use crate::sampling::{smp_offset, smp_reg, valid_channel};
use crate::script::{
    abort_script, align_script, cal_write_script, calibrate_script, calibration_settle_script,
    chan_smps_script, convert_script, disable_script, enable_clock_script, enable_script,
    init_script, inject_script, input_type_script, regulator_off_script, regulator_on_script,
    regulator_start_script, sequence_len_script, setup_oneshot_script, single_chan_script,
    start_calibration, startup_delay, startup_wait_script, stop_conversions, stored_cal_script,
    Action, Probe, Task,
};

verus! {

/// The value the caller hands to the next step when the registers read `hw`: the
/// value of the register just read if the step acts on a read, 0 otherwise.
pub open spec fn input_from(m: AdcModel, hw: spec_fn(Reg) -> u32) -> u32 {
    if m.pending.len() > 0 && m.pending[0] is Decide {
        hw(m.pending[0]->Decide_0.reg())
    } else {
        0
    }
}

/// `n` steps of the driver against registers that read `hw`: the state reached and
/// the actions asked for.
pub open spec fn run(m: AdcModel, hw: spec_fn(Reg) -> u32, n: nat) -> (AdcModel, Seq<Action>)
    decreases n,
{
    if n == 0 {
        (m, seq![])
    } else {
        let (m1, act) = m.next(input_from(m, hw));
        let (m2, acts) = run(m1, hw, (n - 1) as nat);
        (m2, seq![act] + acts)
    }
}

/// Enabling the clock when the RCC enable bit is off: the enable bit is set, CKMODE is written,
/// and the check succeeds.
pub proof fn lemma_enable_clock_when_off(m: AdcModel, hw: spec_fn(Reg) -> u32, rest: Seq<Task>)
    requires
        m.pending == enable_clock_script() + rest,
        hw(Reg::RccEnable) & clock_enable_mask(m.family, m.unit) == 0,
    ensures
        run(m, hw, 4).0 == (AdcModel { clock_ok: true, pending: rest, ..m }),
        run(m, hw, 4).1 == (seq![
            Action::Read { reg: Reg::RccEnable },
            Action::Idle,
            Action::Modify {
                reg: Reg::RccEnable,
                update: set_bits(clock_enable_mask(m.family, m.unit)),
            },
            Action::Modify {
                reg: Reg::CommonCcr,
                update: field_update(CCR_CKMODE_OFFSET, CCR_CKMODE_WIDTH, m.ckmode.code() as u32),
            },
        ]),
{
    reveal_with_fuel(run, 5);
    let m1 = m.next(input_from(m, hw)).0;
    assert(m1.pending == seq![Task::Decide(Probe::ClockEnabled)] + rest);
    let m2 = m1.next(input_from(m1, hw)).0;
    assert(input_from(m1, hw) == hw(Reg::RccEnable));
    let m3 = m2.next(input_from(m2, hw)).0;
    let m4 = m3.next(input_from(m3, hw)).0;
    assert(m4.pending =~= rest);
}

/// The clock check of the initialisation when the RCC enable bit is already on: nothing is
/// written; the initialisation goes on if CKMODE holds the configured clock mode,
/// and fails with nothing left to run otherwise (the clock was already enabled with
/// a different setting).
pub proof fn lemma_init_clock_already_on(m: AdcModel, hw: spec_fn(Reg) -> u32, rest: Seq<Task>)
    requires
        m.pending == enable_clock_script() + seq![Task::RequireClock] + rest,
        hw(Reg::RccEnable) & clock_enable_mask(m.family, m.unit) != 0,
    ensures
        field(hw(Reg::CommonCcr), CCR_CKMODE_OFFSET, CCR_CKMODE_WIDTH) == m.ckmode.code() ==> {
            &&& run(m, hw, 5).0 == (AdcModel { clock_ok: true, pending: rest, ..m })
            &&& run(m, hw, 5).1 == seq![
                Action::Read { reg: Reg::RccEnable },
                Action::Idle,
                Action::Read { reg: Reg::CommonCcr },
                Action::Idle,
                Action::Idle,
            ]
        },
        field(hw(Reg::CommonCcr), CCR_CKMODE_OFFSET, CCR_CKMODE_WIDTH) != m.ckmode.code() ==> {
            &&& run(m, hw, 5).0 == (AdcModel { clock_ok: false, pending: seq![], ..m })
            &&& run(m, hw, 5).1 == seq![
                Action::Read { reg: Reg::RccEnable },
                Action::Idle,
                Action::Read { reg: Reg::CommonCcr },
                Action::Idle,
                Action::Fault,
            ]
        },
{
    reveal_with_fuel(run, 6);
    let m1 = m.next(input_from(m, hw)).0;
    assert(m1.pending == seq![Task::Decide(Probe::ClockEnabled), Task::RequireClock] + rest);
    let m2 = m1.next(input_from(m1, hw)).0;
    assert(m2.pending =~= seq![Task::Read(Probe::ClockModeMatch), Task::RequireClock] + rest);
    let m3 = m2.next(input_from(m2, hw)).0;
    assert(m3.pending =~= seq![Task::Decide(Probe::ClockModeMatch), Task::RequireClock] + rest);
    let m4 = m3.next(input_from(m3, hw)).0;
    assert(m4.pending =~= seq![Task::RequireClock] + rest);
    let m5 = m4.next(input_from(m4, hw)).0;
    assert(m4.pending.drop_first() =~= rest);
}

/// The clock check of the initialisation when the RCC enable bit is off: the enable bit is set,
/// CKMODE is written, and the initialisation goes on.
pub proof fn lemma_init_clock_off(m: AdcModel, hw: spec_fn(Reg) -> u32, rest: Seq<Task>)
    requires
        m.pending == enable_clock_script() + seq![Task::RequireClock] + rest,
        hw(Reg::RccEnable) & clock_enable_mask(m.family, m.unit) == 0,
    ensures
        run(m, hw, 5).0 == (AdcModel { clock_ok: true, pending: rest, ..m }),
        run(m, hw, 5).1 == (seq![
            Action::Read { reg: Reg::RccEnable },
            Action::Idle,
            Action::Modify {
                reg: Reg::RccEnable,
                update: set_bits(clock_enable_mask(m.family, m.unit)),
            },
            Action::Modify {
                reg: Reg::CommonCcr,
                update: field_update(CCR_CKMODE_OFFSET, CCR_CKMODE_WIDTH, m.ckmode.code() as u32),
            },
            Action::Idle,
        ]),
{
    reveal_with_fuel(run, 6);
    let m1 = m.next(input_from(m, hw)).0;
    assert(m1.pending == seq![Task::Decide(Probe::ClockEnabled), Task::RequireClock] + rest);
    let m2 = m1.next(input_from(m1, hw)).0;
    assert(input_from(m1, hw) == hw(Reg::RccEnable));
    let m3 = m2.next(input_from(m2, hw)).0;
    let m4 = m3.next(input_from(m3, hw)).0;
    assert(m4.pending =~= seq![Task::RequireClock] + rest);
    let m5 = m4.next(input_from(m4, hw)).0;
    assert(m4.pending.drop_first() =~= rest);
}
/// A single conversion of `chan` once the hardware reports the end of the sequence:
/// the result is the low 16 bits of DR, and the register accesses are, in order, the
/// sampling time of `chan` (the default), the channel selection, ADSTART, the read
/// of ISR, the write clearing EOS and the read of DR.
pub proof fn lemma_convert_reads_data(
    m: AdcModel,
    hw: spec_fn(Reg) -> u32,
    chan: u8,
    rest: Seq<Task>,
)
    requires
        valid_channel(chan),
        m.pending == convert_script(chan) + rest,
        hw(Reg::Isr) & ISR_EOS == ISR_EOS,
    ensures
        run(m, hw, 8).0 == (AdcModel { reading: Some(hw(Reg::Dr) as u16), pending: rest, ..m }),
        run(m, hw, 8).1 == (seq![
            Action::Modify {
                reg: smp_reg(chan),
                update: field_update(smp_offset(chan), SMP_WIDTH, SampleTime::T1.code() as u32),
            },
            Action::Modify {
                reg: Reg::Sqr1,
                update: field_update(SQR1_SQ1_OFFSET, SQR1_SQ1_WIDTH, chan as u32),
            },
            Action::Modify { reg: Reg::Cr, update: set_bits(CR_ADSTART) },
            Action::Read { reg: Reg::Isr },
            Action::Idle,
            Action::Modify { reg: Reg::Isr, update: set_bits(ISR_EOS) },
            Action::Read { reg: Reg::Dr },
            Action::Idle,
        ]),
{
    reveal_with_fuel(run, 9);
    let m1 = m.next(input_from(m, hw)).0;
    let m2 = m1.next(input_from(m1, hw)).0;
    let m3 = m2.next(input_from(m2, hw)).0;
    let m4 = m3.next(input_from(m3, hw)).0;
    let m5 = m4.next(input_from(m4, hw)).0;
    let m6 = m5.next(input_from(m5, hw)).0;
    let m7 = m6.next(input_from(m6, hw)).0;
    let m8 = m7.next(input_from(m7, hw)).0;
    assert(m4.pending =~= seq![
        Task::Decide(Probe::Until { reg: Reg::Isr, mask: ISR_EOS, expect: ISR_EOS }),
        Task::Write { reg: Reg::Isr, update: set_bits(ISR_EOS) },
        Task::Read(Probe::Data),
    ] + rest);
    assert(m5.pending =~= seq![
        Task::Write { reg: Reg::Isr, update: set_bits(ISR_EOS) },
        Task::Read(Probe::Data),
    ] + rest);
    assert(m7.pending =~= seq![Task::Decide(Probe::Data)] + rest);
    assert(m8.pending =~= rest);
}
/// Aborting when no conversion is ongoing only reads CR: nothing is written.
pub proof fn lemma_abort_when_idle(m: AdcModel, hw: spec_fn(Reg) -> u32, rest: Seq<Task>)
    requires
        m.pending == abort_script() + rest,
        hw(Reg::Cr) & CR_ADSTART == 0,
        hw(Reg::Cr) & CR_JADSTART == 0,
    ensures
        run(m, hw, 8).0 == m.with_pending(rest),
        run(m, hw, 8).1 == (seq![
            Action::Read { reg: Reg::Cr },
            Action::Idle,
            Action::Read { reg: Reg::Cr },
            Action::Idle,
            Action::Read { reg: Reg::Cr },
            Action::Idle,
            Action::Read { reg: Reg::Cr },
            Action::Idle,
        ]),
{
    reveal_with_fuel(run, 9);
    let m1 = m.next(input_from(m, hw)).0;
    let m2 = m1.next(input_from(m1, hw)).0;
    assert(m2.pending =~= seq![Task::Read(Probe::StopInjected), Task::Read(Probe::IdleRegular)]
        + rest);
    let m3 = m2.next(input_from(m2, hw)).0;
    let m4 = m3.next(input_from(m3, hw)).0;
    assert(m4.pending =~= seq![Task::Read(Probe::IdleRegular)] + rest);
    let m5 = m4.next(input_from(m4, hw)).0;
    let m6 = m5.next(input_from(m5, hw)).0;
    assert(m6.pending =~= seq![Task::Read(Probe::IdleInjected)] + rest);
    let m7 = m6.next(input_from(m6, hw)).0;
    let m8 = m7.next(input_from(m7, hw)).0;
    assert(m8.pending =~= rest);
}

/// Aborting while a regular conversion is ongoing writes ADSTP and JADSTP, then
/// waits for the conversions to stop.
pub proof fn lemma_abort_stops_conversion(m: AdcModel, hw: spec_fn(Reg) -> u32, rest: Seq<Task>)
    requires
        m.pending == abort_script() + rest,
        hw(Reg::Cr) & CR_ADSTART != 0,
    ensures
        run(m, hw, 3).0 == m.with_pending(seq![Task::Read(Probe::IdleRegular)] + rest),
        run(m, hw, 3).1 == (seq![
            Action::Read { reg: Reg::Cr },
            Action::Idle,
            Action::Modify { reg: Reg::Cr, update: set_bits(CR_ADSTP | CR_JADSTP) },
        ]),
{
    reveal_with_fuel(run, 4);
    let m1 = m.next(input_from(m, hw)).0;
    let m2 = m1.next(input_from(m1, hw)).0;
    assert(m2.pending =~= seq![stop_conversions(), Task::Read(Probe::IdleRegular)] + rest);
    let m3 = m2.next(input_from(m2, hw)).0;
    assert(m3.pending =~= seq![Task::Read(Probe::IdleRegular)] + rest);
}

/// Running `a + b` steps is running `a` steps, then `b` more from where they end.
pub proof fn lemma_run_split(m: AdcModel, hw: spec_fn(Reg) -> u32, a: nat, b: nat)
    ensures
        run(m, hw, a + b).0 == run(run(m, hw, a).0, hw, b).0,
        run(m, hw, a + b).1 == run(m, hw, a).1 + run(run(m, hw, a).0, hw, b).1,
    decreases a,
{
    if a > 0 {
        let m1 = m.next(input_from(m, hw)).0;
        let act = m.next(input_from(m, hw)).1;
        lemma_run_split(m1, hw, (a - 1) as nat, b);
        assert((a + b - 1) as nat == (a - 1) as nat + b);
        assert(run(m, hw, a + b).1 == seq![act] + run(m1, hw, (a - 1 + b) as nat).1);
        let first = run(m1, hw, (a - 1) as nat);
        let second = run(first.0, hw, b);
        assert(seq![act] + (first.1 + second.1) =~= (seq![act] + first.1) + second.1);
    } else {
        assert(run(m, hw, 0).1 + run(m, hw, b).1 =~= run(m, hw, b).1);
    }
}

/// A calibration with the regulator on, no conversion ongoing and ADCAL read back
/// clear: the ADC is disabled (ADDIS) before ADCALDIF and ADCAL are written, and the
/// factor read from CALFACT is kept for the input type calibrated.
#[verifier::spinoff_prover]
#[verifier::rlimit(40)]
pub proof fn lemma_calibrate_keeps_factor(
    m: AdcModel,
    hw: spec_fn(Reg) -> u32,
    input: InputType,
    delay: u32,
    rest: Seq<Task>,
)
    requires
        m.pending == calibrate_script(input, delay) + rest,
        regulator_on_in(m.family, hw(Reg::Cr)),
        hw(Reg::Cr) & CR_ADSTART == 0,
        hw(Reg::Cr) & CR_JADSTART == 0,
        hw(Reg::Cr) & CR_ADCAL == 0,
    ensures
        run(m, hw, 16).0 == (match input {
            InputType::SingleEnded => AdcModel {
                cal_single_ended: Some(
                    field(hw(Reg::Calfact), CALFACT_S_OFFSET, CALFACT_WIDTH) as u8,
                ),
                pending: rest,
                ..m
            },
            InputType::Differential => AdcModel {
                cal_differential: Some(
                    field(hw(Reg::Calfact), CALFACT_D_OFFSET, CALFACT_WIDTH) as u8,
                ),
                pending: rest,
                ..m
            },
        }),
        run(m, hw, 16).1 == (seq![
            Action::Read { reg: Reg::Cr },
            Action::Idle,
            Action::Read { reg: Reg::Cr },
            Action::Idle,
            Action::Read { reg: Reg::Cr },
            Action::Idle,
            Action::Read { reg: Reg::Cr },
            Action::Idle,
            Action::Read { reg: Reg::Cr },
            Action::Idle,
            Action::Modify { reg: Reg::Cr, update: set_bits(CR_ADDIS) },
            Action::Modify { reg: Reg::Cr, update: start_calibration(input) },
            Action::Read { reg: Reg::Cr },
            Action::Idle,
            Action::Read { reg: Reg::Calfact },
            Action::Idle,
        ]),
{
    let tail = seq![
        Task::Write { reg: Reg::Cr, update: set_bits(CR_ADDIS) },
        Task::Write { reg: Reg::Cr, update: start_calibration(input) },
        Task::Read(Probe::Until { reg: Reg::Cr, mask: CR_ADCAL, expect: 0 }),
        Task::Read(Probe::CalFactor { input }),
    ] + rest;
    // The regulator check: two steps, nothing added.
    reveal_with_fuel(run, 3);
    let m1 = m.next(input_from(m, hw)).0;
    let m2 = m1.next(input_from(m1, hw)).0;
    assert(m2.pending =~= abort_script() + tail);
    assert(run(m, hw, 2).0 == m2);
    // The abort: eight reads.
    lemma_abort_when_idle(m2, hw, tail);
    lemma_run_split(m, hw, 2, 8);
    let m10 = run(m, hw, 10).0;
    assert(m10 == m.with_pending(tail));
    // ADDIS, the start, the poll, the factor.
    reveal_with_fuel(run, 7);
    let m11 = m10.next(input_from(m10, hw)).0;
    let m12 = m11.next(input_from(m11, hw)).0;
    let m13 = m12.next(input_from(m12, hw)).0;
    let m14 = m13.next(input_from(m13, hw)).0;
    assert(m14.pending =~= seq![Task::Read(Probe::CalFactor { input })] + rest);
    let m15 = m14.next(input_from(m14, hw)).0;
    let m16 = m15.next(input_from(m15, hw)).0;
    assert(m16.pending =~= rest);
    lemma_run_split(m, hw, 10, 6);
}
/// Every register write in `s` writes only bits of its mask.
pub open spec fn writes_wf(s: Seq<Task>) -> bool {
    forall|i: int| 0 <= i < s.len() && (#[trigger] s[i]) is Write ==> s[i]->update.wf()
}

proof fn lemma_writes_wf_concat(a: Seq<Task>, b: Seq<Task>)
    requires
        writes_wf(a),
        writes_wf(b),
    ensures
        writes_wf(a + b),
{
    assert forall|i: int| 0 <= i < (a + b).len() && (#[trigger] (a + b)[i]) is Write implies (a
        + b)[i]->update.wf() by {
        if i < a.len() {
            assert((a + b)[i] == a[i]);
        } else {
            assert((a + b)[i] == b[i - a.len()]);
        }
    }
}

proof fn lemma_masks_wf(mask: u32, on: bool)
    ensures
        set_bits(mask).wf(),
        clear_bits(mask).wf(),
        put_bits(mask, on).wf(),
{
    assert(mask & !mask == 0) by (bit_vector);
    assert(0u32 & !mask == 0) by (bit_vector);
}

proof fn lemma_start_calibration_wf(input: InputType)
    ensures
        start_calibration(input).wf(),
{
    assert(0x8000_0000u32 & !(0x4000_0000u32 | 0x8000_0000u32) == 0) by (bit_vector);
    assert((0x4000_0000u32 | 0x8000_0000u32) & !(0x4000_0000u32 | 0x8000_0000u32) == 0)
        by (bit_vector);
}

/// Every write of every procedure script stays inside its mask.
pub proof fn lemma_scripts_write_in_masks(
    family: Family,
    ckmode: ClockMode,
    delay: u32,
    input: InputType,
    align: Align,
    len: u8,
    chan: u8,
    smp: SampleTime,
    single_ended: Option<u8>,
    differential: Option<u8>,
)
    requires
        valid_channel(chan),
        1 <= len <= 16,
    ensures
        writes_wf(init_script(family, ckmode, delay)),
        writes_wf(enable_clock_script()),
        writes_wf(align_script(align)),
        writes_wf(regulator_on_script(family, delay)),
        writes_wf(regulator_off_script(family)),
        writes_wf(startup_wait_script(delay)),
        writes_wf(abort_script()),
        writes_wf(disable_script()),
        writes_wf(enable_script()),
        writes_wf(calibrate_script(input, delay)),
        writes_wf(sequence_len_script(len)),
        writes_wf(setup_oneshot_script()),
        writes_wf(chan_smps_script(chan, smp)),
        writes_wf(single_chan_script(chan)),
        writes_wf(convert_script(chan)),
        writes_wf(inject_script()),
        writes_wf(stored_cal_script(single_ended, differential)),
        writes_wf(input_type_script()),
        writes_wf(calibration_settle_script(ckmode)),
{
    lemma_masks_wf(CFGR_ALIGN, align.code() != 0);
    lemma_masks_wf(CR_DEEPPWD, true);
    lemma_masks_wf(CR_ADVREGEN, true);
    lemma_masks_wf(CR_ADDIS, true);
    lemma_masks_wf(CR_ADEN, true);
    lemma_masks_wf(ISR_ADRDY, true);
    lemma_masks_wf(CR_ADSTP, true);
    lemma_masks_wf(ISR_OVR, true);
    lemma_masks_wf(CFGR_CONT | CFGR_OVRMOD, true);
    lemma_masks_wf(CR_ADSTART, true);
    lemma_masks_wf(ISR_EOS, true);
    lemma_start_calibration_wf(input);
    lemma_start_calibration_wf(InputType::SingleEnded);
    lemma_field_update_frame(0, CR_ADVREGEN_OFFSET, 2, 0b00);
    lemma_field_update_frame(0, CR_ADVREGEN_OFFSET, 2, 0b01);
    lemma_field_update_frame(0, CR_ADVREGEN_OFFSET, 2, 0b10);
    lemma_field_update_frame(0, SQR1_L_OFFSET, SQR1_L_WIDTH, (len - 1) as u32);
    lemma_field_update_frame(0, SQR1_L_OFFSET, SQR1_L_WIDTH, 0);
    lemma_field_update_frame(0, smp_offset(chan), SMP_WIDTH, smp.code() as u32);
    lemma_field_update_frame(0, smp_offset(chan), SMP_WIDTH, SampleTime::T1.code() as u32);
    lemma_field_update_frame(0, SQR1_SQ1_OFFSET, SQR1_SQ1_WIDTH, chan as u32);
    if let Some(c) = single_ended {
        lemma_field_update_frame(0, CALFACT_S_OFFSET, CALFACT_WIDTH, c as u32);
    }
    if let Some(c) = differential {
        lemma_field_update_frame(0, CALFACT_D_OFFSET, CALFACT_WIDTH, c as u32);
    }
    lemma_writes_wf_concat(regulator_start_script(family), startup_wait_script(delay));
    let addis = seq![Task::Write { reg: Reg::Cr, update: set_bits(CR_ADDIS) }];
    lemma_writes_wf_concat(abort_script(), addis);
    let cal_tail = seq![
        Task::Write { reg: Reg::Cr, update: start_calibration(input) },
        Task::Read(Probe::Until { reg: Reg::Cr, mask: CR_ADCAL, expect: 0 }),
        Task::Read(Probe::CalFactor { input }),
    ];
    lemma_writes_wf_concat(seq![Task::Read(Probe::Regulator { delay })], disable_script());
    let cal_head = seq![Task::Read(Probe::Regulator { delay })] + disable_script();
    lemma_writes_wf_concat(cal_head, cal_tail);
    let one_tail = seq![
        Task::Write { reg: Reg::Cr, update: set_bits(CR_ADSTP) },
        Task::Write { reg: Reg::Isr, update: clear_bits(ISR_OVR) },
        Task::Write { reg: Reg::Cfgr, update: clear_bits(CFGR_CONT | CFGR_OVRMOD) },
    ];
    lemma_writes_wf_concat(one_tail, sequence_len_script(1));
    lemma_writes_wf_concat(one_tail + sequence_len_script(1), seq![Task::MarkOneShot]);
    let conv_tail = seq![
        Task::Write { reg: Reg::Cr, update: set_bits(CR_ADSTART) },
        Task::Read(Probe::Until { reg: Reg::Isr, mask: ISR_EOS, expect: ISR_EOS }),
        Task::Write { reg: Reg::Isr, update: set_bits(ISR_EOS) },
        Task::Read(Probe::Data),
    ];
    lemma_writes_wf_concat(chan_smps_script(chan, SampleTime::T1), single_chan_script(chan));
    let conv_head = chan_smps_script(chan, SampleTime::T1) + single_chan_script(chan);
    lemma_writes_wf_concat(conv_head, conv_tail);
    lemma_writes_wf_concat(seq![Task::Read(Probe::EnableIfOff)], abort_script());
    let inject_head = seq![Task::Read(Probe::EnableIfOff)] + abort_script();
    lemma_writes_wf_concat(inject_head, seq![Task::InjectStored]);
    lemma_writes_wf_concat(
        cal_write_script(single_ended, CALFACT_S_OFFSET),
        cal_write_script(differential, CALFACT_D_OFFSET),
    );
    // The initialisation.
    let i1 = enable_clock_script() + seq![Task::RequireClock];
    lemma_writes_wf_concat(enable_clock_script(), seq![Task::RequireClock]);
    lemma_writes_wf_concat(i1, align_script(Align::Right));
    let i2 = i1 + align_script(Align::Right);
    lemma_masks_wf(CFGR_ALIGN, false);
    lemma_writes_wf_concat(i2, regulator_on_script(family, delay));
    let i3 = i2 + regulator_on_script(family, delay);
    lemma_writes_wf_concat(seq![Task::Read(Probe::Regulator { delay })], disable_script());
    let c1 = calibrate_script(InputType::SingleEnded, delay);
    lemma_writes_wf_concat(
        seq![Task::Read(Probe::Regulator { delay })] + disable_script(),
        seq![
            Task::Write { reg: Reg::Cr, update: start_calibration(InputType::SingleEnded) },
            Task::Read(Probe::Until { reg: Reg::Cr, mask: CR_ADCAL, expect: 0 }),
            Task::Read(Probe::CalFactor { input: InputType::SingleEnded }),
        ],
    );
    lemma_writes_wf_concat(i3, c1);
    let i4 = i3 + c1;
    lemma_writes_wf_concat(i4, calibration_settle_script(ckmode));
    let i5 = i4 + calibration_settle_script(ckmode);
    lemma_writes_wf_concat(i5, enable_script());
    let i6 = i5 + enable_script();
    lemma_writes_wf_concat(i6, setup_oneshot_script());
}
proof fn lemma_writes_wf_drop_first(s: Seq<Task>)
    requires
        writes_wf(s),
        s.len() > 0,
    ensures
        writes_wf(s.drop_first()),
{
    assert forall|i: int| 0 <= i < s.drop_first().len() && (#[trigger] s.drop_first()[i]) is Write
        implies s.drop_first()[i]->update.wf() by {
        assert(s.drop_first()[i] == s[i + 1]);
    }
}

/// A step of the driver never asks for a write outside the mask of the update, and
/// keeps every pending write inside its mask.
pub proof fn lemma_step_writes_in_masks(m: AdcModel, input: u32)
    requires
        writes_wf(m.pending),
    ensures
        writes_wf(m.next(input).0.pending),
        m.next(input).1 is Modify ==> m.next(input).1->update.wf(),
{
    if m.pending.len() > 0 {
        let rest = m.pending.drop_first();
        lemma_writes_wf_drop_first(m.pending);
        assert(m.pending[0] == m.pending[0]);
        match m.pending[0] {
            Task::Read(probe) => {
                lemma_writes_wf_concat(seq![Task::Decide(probe)], rest);
            },
            Task::Decide(probe) => {
                lemma_scripts_write_in_masks(
                    m.family,
                    m.ckmode,
                    0,
                    InputType::SingleEnded,
                    Align::Right,
                    1,
                    1,
                    SampleTime::T1,
                    m.cal_single_ended,
                    m.cal_differential,
                );
                match probe {
                    Probe::ClockEnabled => {
                        let enable = clock_enable_mask(m.family, m.unit);
                        lemma_masks_wf(enable, true);
                        lemma_field_update_frame(
                            0,
                            CCR_CKMODE_OFFSET,
                            CCR_CKMODE_WIDTH,
                            m.ckmode.code() as u32,
                        );
                        lemma_writes_wf_concat(
                            seq![
                                Task::Write { reg: Reg::RccEnable, update: set_bits(enable) },
                                Task::Write {
                                    reg: Reg::CommonCcr,
                                    update: field_update(
                                        CCR_CKMODE_OFFSET,
                                        CCR_CKMODE_WIDTH,
                                        m.ckmode.code() as u32,
                                    ),
                                },
                            ],
                            rest,
                        );
                        lemma_writes_wf_concat(seq![Task::Read(Probe::ClockModeMatch)], rest);
                    },
                    Probe::StopRegular | Probe::StopInjected => {
                        lemma_masks_wf(CR_ADSTP | CR_JADSTP, true);
                        lemma_writes_wf_concat(seq![stop_conversions()], rest);
                        lemma_writes_wf_concat(seq![Task::Read(Probe::StopInjected)], rest);
                    },
                    Probe::IdleRegular | Probe::IdleInjected => {
                        lemma_writes_wf_concat(seq![Task::Read(Probe::IdleRegular)], rest);
                        lemma_writes_wf_concat(seq![Task::Read(Probe::IdleInjected)], rest);
                    },
                    Probe::Regulator { delay } => {
                        lemma_scripts_write_in_masks(
                            m.family,
                            m.ckmode,
                            delay,
                            InputType::SingleEnded,
                            Align::Right,
                            1,
                            1,
                            SampleTime::T1,
                            None,
                            None,
                        );
                        lemma_writes_wf_concat(regulator_on_script(m.family, delay), rest);
                    },
                    Probe::EnableIfOff => {
                        lemma_writes_wf_concat(enable_script(), rest);
                    },
                    Probe::CycleIfOn => {
                        lemma_writes_wf_concat(disable_script(), enable_script());
                        lemma_writes_wf_concat(disable_script() + enable_script(), rest);
                    },
                    Probe::Until { .. } => {
                        lemma_writes_wf_concat(seq![Task::Read(probe)], rest);
                    },
                    _ => {},
                }
            },
            Task::InjectStored => {
                lemma_scripts_write_in_masks(
                    m.family,
                    m.ckmode,
                    0,
                    InputType::SingleEnded,
                    Align::Right,
                    1,
                    1,
                    SampleTime::T1,
                    m.cal_single_ended,
                    m.cal_differential,
                );
                let stored = stored_cal_script(m.cal_single_ended, m.cal_differential);
                lemma_writes_wf_concat(stored, rest);
            },
            Task::RequireClock => {
                assert(writes_wf(Seq::<Task>::empty()));
            },
            Task::Write { reg, update } => {
                assert(m.pending[0] is Write);
            },
            _ => {},
        }
    }
}
/// A wait for `value & mask == expect` ends on the first read that matches, and reads
/// again otherwise.
pub proof fn lemma_until_polls(
    m: AdcModel,
    hw: spec_fn(Reg) -> u32,
    reg: Reg,
    mask: u32,
    expect: u32,
    rest: Seq<Task>,
)
    requires
        m.pending == seq![Task::Read(Probe::Until { reg, mask, expect })] + rest,
    ensures
        run(m, hw, 2).1 == (seq![Action::Read { reg }, Action::Idle]),
        hw(reg) & mask == expect ==> run(m, hw, 2).0 == m.with_pending(rest),
        hw(reg) & mask != expect ==> run(m, hw, 2).0 == m,
{
    reveal_with_fuel(run, 3);
    let m1 = m.next(input_from(m, hw)).0;
    assert(m1.pending =~= seq![Task::Decide(Probe::Until { reg, mask, expect })] + rest);
    let m2 = m1.next(input_from(m1, hw)).0;
    assert(m1.pending.drop_first() =~= rest);
}

/// Selecting the input type of an enabled ADC disables it and enables it again; a
/// disabled ADC is left as it is. Only CR is read.
pub proof fn lemma_input_type_cycles_enabled_adc(
    m: AdcModel,
    hw: spec_fn(Reg) -> u32,
    rest: Seq<Task>,
)
    requires
        m.pending == input_type_script() + rest,
    ensures
        run(m, hw, 2).1 == (seq![Action::Read { reg: Reg::Cr }, Action::Idle]),
        enabled_in(hw(Reg::Cr)) ==> run(m, hw, 2).0 == m.with_pending(
            disable_script() + enable_script() + rest,
        ),
        !enabled_in(hw(Reg::Cr)) ==> run(m, hw, 2).0 == m.with_pending(rest),
{
    reveal_with_fuel(run, 3);
    let m1 = m.next(input_from(m, hw)).0;
    assert(m1.pending =~= seq![Task::Decide(Probe::CycleIfOn)] + rest);
    let m2 = m1.next(input_from(m1, hw)).0;
    assert(m1.pending.drop_first() =~= rest);
}

/// Injecting the calibration into an enabled, idle ADC reads CR only, writes
/// nothing before, and then writes the stored factors.
pub proof fn lemma_inject_writes_stored_factors(
    m: AdcModel,
    hw: spec_fn(Reg) -> u32,
    rest: Seq<Task>,
)
    requires
        m.pending == inject_script() + rest,
        enabled_in(hw(Reg::Cr)),
        hw(Reg::Cr) & CR_ADSTART == 0,
        hw(Reg::Cr) & CR_JADSTART == 0,
    ensures
        run(m, hw, 11).0 == m.with_pending(
            stored_cal_script(m.cal_single_ended, m.cal_differential) + rest,
        ),
        run(m, hw, 11).1 == (seq![
            Action::Read { reg: Reg::Cr },
            Action::Idle,
            Action::Read { reg: Reg::Cr },
            Action::Idle,
            Action::Read { reg: Reg::Cr },
            Action::Idle,
            Action::Read { reg: Reg::Cr },
            Action::Idle,
            Action::Read { reg: Reg::Cr },
            Action::Idle,
            Action::Idle,
        ]),
{
    reveal_with_fuel(run, 3);
    let tail = seq![Task::InjectStored] + rest;
    let m1 = m.next(input_from(m, hw)).0;
    let m2 = m1.next(input_from(m1, hw)).0;
    assert(m2.pending =~= abort_script() + tail);
    lemma_abort_when_idle(m2, hw, tail);
    lemma_run_split(m, hw, 2, 8);
    let m10 = run(m, hw, 10).0;
    let m11 = m10.next(input_from(m10, hw)).0;
    assert(m10.pending.drop_first() =~= rest);
    lemma_run_split(m, hw, 10, 1);
}

/// The startup wait of the voltage regulator is never shorter than 2 cycles, and is
/// `MAX_ADVREGEN_STARTUP_US * 1_000_000 / sysclk` whenever that is at least 2.
pub proof fn lemma_startup_delay(sysclk: u32)
    requires
        sysclk > 0,
    ensures
        startup_delay(sysclk) >= 2,
        10_000_000int / (sysclk as int) >= 2 ==> startup_delay(sysclk) == 10_000_000int / (
            sysclk as int),
{
}

/// What the configuration writes leave in their fields: L holds the sequence length
/// minus one, SQ1 the channel, SMPx the code of the sampling time, ALIGN the code of
/// the alignment; one-shot mode clears CONT and OVRMOD and leaves a sequence of one
/// conversion.
pub proof fn lemma_config_fields(old: u32, len: u8, chan: u8, smp: SampleTime, align: Align)
    requires
        1 <= len <= 16,
        valid_channel(chan),
    ensures
        field(sequence_len_script(len)[0]->update.apply(old), SQR1_L_OFFSET, SQR1_L_WIDTH) + 1
            == len,
        field(sequence_len_script(1)[0]->update.apply(old), SQR1_L_OFFSET, SQR1_L_WIDTH) == 0,
        field(single_chan_script(chan)[0]->update.apply(old), SQR1_SQ1_OFFSET, SQR1_SQ1_WIDTH)
            == chan,
        field(chan_smps_script(chan, smp)[0]->update.apply(old), smp_offset(chan), SMP_WIDTH)
            == smp.code(),
        (align_script(align)[0]->update.apply(old) & CFGR_ALIGN != 0) == (align.code() != 0),
        setup_oneshot_script()[2]->update.apply(old) & (CFGR_CONT | CFGR_OVRMOD) == 0,
{
    lemma_low_mask_values();
    lemma_field_update_reads_back(old, SQR1_L_OFFSET, SQR1_L_WIDTH, (len - 1) as u32);
    lemma_field_update_reads_back(old, SQR1_L_OFFSET, SQR1_L_WIDTH, 0);
    lemma_field_update_reads_back(old, SQR1_SQ1_OFFSET, SQR1_SQ1_WIDTH, chan as u32);
    lemma_field_update_reads_back(old, smp_offset(chan), SMP_WIDTH, smp.code() as u32);
    let l = (len - 1) as u32;
    assert(l < 16 ==> l & 15 == l) by (bit_vector);
    let c = chan as u32;
    assert(c < 32 ==> c & 31 == c) by (bit_vector);
    let k = smp.code() as u32;
    assert(k < 8 ==> k & 7 == k) by (bit_vector);
    assert(0u32 & 15 == 0) by (bit_vector);
    lemma_put_bits(old, CFGR_ALIGN, align.code() != 0);
    lemma_put_bits(old, CFGR_CONT | CFGR_OVRMOD, false);
    assert(CFGR_ALIGN & CFGR_ALIGN != 0) by (bit_vector);
    assert(setup_oneshot_script()[2] == Task::Write {
        reg: Reg::Cfgr,
        update: clear_bits(CFGR_CONT | CFGR_OVRMOD),
    });
}
/// The order of the initialisation that the reference manual asks for: the ADC is
/// disabled (ADDIS) before the calibration starts, and ADEN is set only after ADCAL
/// has read back clear and the settle delay of `ckmode` has passed; no write before
/// that delay sets ADEN.
pub proof fn lemma_init_order(family: Family, ckmode: ClockMode, delay: u32)
    ensures
        ({
            let s = init_script(family, ckmode, delay);
            &&& s.len() == 23
            &&& s[9] == Task::Write { reg: Reg::Cr, update: set_bits(CR_ADDIS) }
            &&& s[10] == Task::Write {
                reg: Reg::Cr,
                update: start_calibration(InputType::SingleEnded),
            }
            &&& s[11] == Task::Read(Probe::Until { reg: Reg::Cr, mask: CR_ADCAL, expect: 0 })
            &&& s[13] == Task::Delay { cycles: (ckmode.code() * 4) as u32 }
            &&& s[15] == Task::Write { reg: Reg::Cr, update: set_bits(CR_ADEN) }
            &&& forall|i: int|
                0 <= i < 13 && (#[trigger] s[i]) is Write ==> s[i]->update.bits & CR_ADEN == 0
        }),
{
    let s = init_script(family, ckmode, delay);
    let head = enable_clock_script() + seq![Task::RequireClock] + align_script(Align::Right)
        + regulator_on_script(family, delay);
    let cal = calibrate_script(InputType::SingleEnded, delay);
    assert(head.len() == 6);
    assert(cal.len() == 7);
    assert(s =~= head + cal + calibration_settle_script(ckmode) + enable_script()
        + setup_oneshot_script());
    assert(cal[3] == Task::Write { reg: Reg::Cr, update: set_bits(CR_ADDIS) });
    lemma_low_mask_values();
    assert((0u32 & 3) << 28u32 & 1 == 0) by (bit_vector);
    assert((1u32 & 3) << 28u32 & 1 == 0) by (bit_vector);
    assert(0x2000u32 & 1 == 0 && 0x1000_0000u32 & 1 == 0 && 0x2000_0000u32 & 1 == 0)
        by (bit_vector);
    assert(0x20u32 & 1 == 0 && 0x8000_0000u32 & 1 == 0 && 0x2u32 & 1 == 0 && 0u32 & 1 == 0)
        by (bit_vector);
    assert forall|i: int| 0 <= i < 13 && (#[trigger] s[i]) is Write implies s[i]->update.bits
        & CR_ADEN == 0 by {
        if i < 6 {
            assert(s[i] == head[i]);
        } else {
            assert(s[i] == cal[i - 6]);
        }
    }
}
/// No step changes which ADC the driver is for, its family or its clock mode.
pub proof fn lemma_step_keeps_configuration(m: AdcModel, input: u32)
    ensures
        m.next(input).0.unit == m.unit,
        m.next(input).0.family == m.family,
        m.next(input).0.ckmode == m.ckmode,
{
}
/// Aborting while only an injected conversion is ongoing (ADSTART clear, JADSTART
/// set) reads CR twice, then writes ADSTP and JADSTP, then waits.
pub proof fn lemma_abort_stops_injected_conversion(
    m: AdcModel,
    hw: spec_fn(Reg) -> u32,
    rest: Seq<Task>,
)
    requires
        m.pending == abort_script() + rest,
        hw(Reg::Cr) & CR_ADSTART == 0,
        hw(Reg::Cr) & CR_JADSTART != 0,
    ensures
        run(m, hw, 5).0 == m.with_pending(seq![Task::Read(Probe::IdleRegular)] + rest),
        run(m, hw, 5).1 == (seq![
            Action::Read { reg: Reg::Cr },
            Action::Idle,
            Action::Read { reg: Reg::Cr },
            Action::Idle,
            Action::Modify { reg: Reg::Cr, update: set_bits(CR_ADSTP | CR_JADSTP) },
        ]),
{
    reveal_with_fuel(run, 6);
    let m1 = m.next(input_from(m, hw)).0;
    let m2 = m1.next(input_from(m1, hw)).0;
    assert(m2.pending =~= seq![Task::Read(Probe::StopInjected), Task::Read(Probe::IdleRegular)]
        + rest);
    let m3 = m2.next(input_from(m2, hw)).0;
    let m4 = m3.next(input_from(m3, hw)).0;
    assert(m4.pending =~= seq![stop_conversions(), Task::Read(Probe::IdleRegular)] + rest);
    let m5 = m4.next(input_from(m4, hw)).0;
    assert(m5.pending =~= seq![Task::Read(Probe::IdleRegular)] + rest);
}

/// The wait at the end of an abort: while CR reads ADSTART set, it reads CR again;
/// while it reads JADSTART set, it reads CR again (from the start of the wait); it
/// ends, and lets the steps after it run, only after a read with both clear.
pub proof fn lemma_abort_wait_until_stopped(m: AdcModel, hw: spec_fn(Reg) -> u32, rest: Seq<Task>)
    requires
        m.pending == seq![Task::Read(Probe::IdleRegular)] + rest,
    ensures
        hw(Reg::Cr) & CR_ADSTART != 0 ==> run(m, hw, 2).0 == m,
        hw(Reg::Cr) & CR_ADSTART != 0 ==> run(m, hw, 2).1 == (seq![
            Action::Read { reg: Reg::Cr },
            Action::Idle,
        ]),
        hw(Reg::Cr) & CR_ADSTART == 0 ==> run(m, hw, 4).1 == (seq![
            Action::Read { reg: Reg::Cr },
            Action::Idle,
            Action::Read { reg: Reg::Cr },
            Action::Idle,
        ]),
        hw(Reg::Cr) & CR_ADSTART == 0 && hw(Reg::Cr) & CR_JADSTART != 0 ==> run(m, hw, 4).0
            == m,
        hw(Reg::Cr) & CR_ADSTART == 0 && hw(Reg::Cr) & CR_JADSTART == 0 ==> run(m, hw, 4).0
            == m.with_pending(rest),
{
    reveal_with_fuel(run, 5);
    let m1 = m.next(input_from(m, hw)).0;
    assert(m1.pending =~= seq![Task::Decide(Probe::IdleRegular)] + rest);
    assert(m1.pending.drop_first() =~= rest);
    let m2 = m1.next(input_from(m1, hw)).0;
    if hw(Reg::Cr) & CR_ADSTART != 0 {
        assert(m2.pending =~= m.pending);
        assert(m2 =~= m);
    } else {
        assert(m2.pending =~= seq![Task::Read(Probe::IdleInjected)] + rest);
        let m3 = m2.next(input_from(m2, hw)).0;
        assert(m3.pending =~= seq![Task::Decide(Probe::IdleInjected)] + rest);
        assert(m3.pending.drop_first() =~= rest);
        let m4 = m3.next(input_from(m3, hw)).0;
        if hw(Reg::Cr) & CR_JADSTART != 0 {
            assert(m4.pending =~= m.pending);
            assert(m4 =~= m);
        } else {
            assert(m4.pending =~= rest);
        }
    }
}

/// A calibration that finds the voltage regulator off starts it first: after the
/// read of CR, the regulator writes of the family (F3: ADVREGEN `00` then `01`; L4:
/// DEEPPWD cleared, then ADVREGEN set) and the startup delay come before the abort,
/// ADDIS and the start of the calibration.
pub proof fn lemma_calibrate_starts_regulator(
    m: AdcModel,
    hw: spec_fn(Reg) -> u32,
    input: InputType,
    delay: u32,
    rest: Seq<Task>,
)
    requires
        m.pending == calibrate_script(input, delay) + rest,
        !regulator_on_in(m.family, hw(Reg::Cr)),
    ensures
        run(m, hw, 5).1 == (seq![
            Action::Read { reg: Reg::Cr },
            Action::Idle,
            Action::Modify {
                reg: Reg::Cr,
                update: match m.family {
                    Family::F3 => field_update(CR_ADVREGEN_OFFSET, 2, 0b00),
                    Family::L4 => clear_bits(CR_DEEPPWD),
                },
            },
            Action::Modify {
                reg: Reg::Cr,
                update: match m.family {
                    Family::F3 => field_update(CR_ADVREGEN_OFFSET, 2, 0b01),
                    Family::L4 => set_bits(CR_ADVREGEN),
                },
            },
            Action::Delay { cycles: delay },
        ]),
        run(m, hw, 5).0 == m.with_pending(
            seq![
                Task::Read(Probe::StopRegular),
                Task::Read(Probe::IdleRegular),
                Task::Write { reg: Reg::Cr, update: set_bits(CR_ADDIS) },
                Task::Write { reg: Reg::Cr, update: start_calibration(input) },
                Task::Read(Probe::Until { reg: Reg::Cr, mask: CR_ADCAL, expect: 0 }),
                Task::Read(Probe::CalFactor { input }),
            ] + rest,
        ),
{
    reveal_with_fuel(run, 6);
    let tail = seq![
        Task::Read(Probe::StopRegular),
        Task::Read(Probe::IdleRegular),
        Task::Write { reg: Reg::Cr, update: set_bits(CR_ADDIS) },
        Task::Write { reg: Reg::Cr, update: start_calibration(input) },
        Task::Read(Probe::Until { reg: Reg::Cr, mask: CR_ADCAL, expect: 0 }),
        Task::Read(Probe::CalFactor { input }),
    ] + rest;
    let m1 = m.next(input_from(m, hw)).0;
    assert(m1.pending =~= seq![Task::Decide(Probe::Regulator { delay })] + tail);
    assert(m1.pending.drop_first() =~= tail);
    let m2 = m1.next(input_from(m1, hw)).0;
    let w1 = match m.family {
        Family::F3 => field_update(CR_ADVREGEN_OFFSET, 2, 0b00),
        Family::L4 => clear_bits(CR_DEEPPWD),
    };
    let w2 = match m.family {
        Family::F3 => field_update(CR_ADVREGEN_OFFSET, 2, 0b01),
        Family::L4 => set_bits(CR_ADVREGEN),
    };
    assert(m2.pending =~= seq![
        Task::Write { reg: Reg::Cr, update: w1 },
        Task::Write { reg: Reg::Cr, update: w2 },
        Task::Delay { cycles: delay },
    ] + tail);
    let m3 = m2.next(input_from(m2, hw)).0;
    assert(m3.pending =~= seq![
        Task::Write { reg: Reg::Cr, update: w2 },
        Task::Delay { cycles: delay },
    ] + tail);
    let m4 = m3.next(input_from(m3, hw)).0;
    assert(m4.pending =~= seq![Task::Delay { cycles: delay }] + tail);
    let m5 = m4.next(input_from(m4, hw)).0;
    assert(m5.pending =~= tail);
}

/// The sampling time of a channel goes to its own SMPx field: x is the channel number
/// (channel 11 is written to SMP10), SMP0 to SMP9 lie in SMPR1 and SMP10 to SMP18 in
/// SMPR2, and SMPx starts at bit `3 * (x mod 10)` of its register. Writing it leaves
/// exactly that field holding the code of the sampling time.
pub proof fn lemma_sampling_field_position(chan: u8, smp: SampleTime, old: u32)
    requires
        valid_channel(chan),
    ensures
        ({
            let x: int = if chan == 11 { 10 } else { chan as int };
            let pos: u32 = if x <= 9 { (3 * x) as u32 } else { (3 * (x - 10)) as u32 };
            &&& chan_smps_script(chan, smp)[0]->reg == (if x <= 9 { Reg::Smpr1 } else { Reg::Smpr2 })
            &&& smp_offset(chan) == pos
            &&& field(chan_smps_script(chan, smp)[0]->update.apply(old), pos, 3) == smp.code()
        }),
{
    lemma_low_mask_values();
    lemma_field_update_reads_back(old, smp_offset(chan), SMP_WIDTH, smp.code() as u32);
    let k = smp.code() as u32;
    assert(k < 8 ==> k & 7 == k) by (bit_vector);
}
/// Enabling the ADC: ADRDY is cleared, ADEN is set, ISR is read until ADRDY reads
/// set, then ADRDY is cleared again; while ADRDY reads clear, ISR is read again.
pub proof fn lemma_enable_waits_ready(m: AdcModel, hw: spec_fn(Reg) -> u32, rest: Seq<Task>)
    requires
        m.pending == enable_script() + rest,
    ensures
        run(m, hw, 4).1 == (seq![
            Action::Modify { reg: Reg::Isr, update: clear_bits(ISR_ADRDY) },
            Action::Modify { reg: Reg::Cr, update: set_bits(CR_ADEN) },
            Action::Read { reg: Reg::Isr },
            Action::Idle,
        ]),
        hw(Reg::Isr) & ISR_ADRDY == 0 ==> run(m, hw, 4).0 == m.with_pending(
            seq![
                Task::Read(Probe::Until { reg: Reg::Isr, mask: ISR_ADRDY, expect: ISR_ADRDY }),
                Task::Write { reg: Reg::Isr, update: clear_bits(ISR_ADRDY) },
            ] + rest,
        ),
        hw(Reg::Isr) & ISR_ADRDY != 0 ==> run(m, hw, 5).0 == m.with_pending(rest),
        hw(Reg::Isr) & ISR_ADRDY != 0 ==> run(m, hw, 5).1 == run(m, hw, 4).1 + seq![
            Action::Modify { reg: Reg::Isr, update: clear_bits(ISR_ADRDY) },
        ],
{
    reveal_with_fuel(run, 6);
    let until = Probe::Until { reg: Reg::Isr, mask: ISR_ADRDY, expect: ISR_ADRDY };
    let last = seq![Task::Write { reg: Reg::Isr, update: clear_bits(ISR_ADRDY) }] + rest;
    let m1 = m.next(input_from(m, hw)).0;
    let m2 = m1.next(input_from(m1, hw)).0;
    assert(m2.pending =~= seq![Task::Read(until)] + last);
    let m3 = m2.next(input_from(m2, hw)).0;
    assert(m3.pending =~= seq![Task::Decide(until)] + last);
    assert(m3.pending.drop_first() =~= last);
    let m4 = m3.next(input_from(m3, hw)).0;
    assert(ISR_ADRDY & ISR_ADRDY == ISR_ADRDY) by (bit_vector);
    let isr = hw(Reg::Isr);
    assert(isr & 1 == 0 || isr & 1 == 1) by (bit_vector);
    if hw(Reg::Isr) & ISR_ADRDY != 0 {
        assert(m4.pending =~= last);
        let m5 = m4.next(input_from(m4, hw)).0;
        assert(m5.pending =~= rest);
        lemma_run_split(m, hw, 4, 1);
    } else {
        assert(m4.pending =~= seq![Task::Read(until)] + last);
    }
}

/// One-shot setup writes ADSTP, clears OVR, clears CONT and OVRMOD, writes L = 0 (a
/// sequence of one conversion), and leaves the driver in one-shot mode.
pub proof fn lemma_setup_oneshot(m: AdcModel, hw: spec_fn(Reg) -> u32, rest: Seq<Task>)
    requires
        m.pending == setup_oneshot_script() + rest,
    ensures
        run(m, hw, 5).0 == (AdcModel {
            operation_mode: crate::config::OperationMode::OneShot,
            pending: rest,
            ..m
        }),
        run(m, hw, 5).1 == (seq![
            Action::Modify { reg: Reg::Cr, update: set_bits(CR_ADSTP) },
            Action::Modify { reg: Reg::Isr, update: clear_bits(ISR_OVR) },
            Action::Modify { reg: Reg::Cfgr, update: clear_bits(CFGR_CONT | CFGR_OVRMOD) },
            Action::Modify { reg: Reg::Sqr1, update: field_update(0, 4, 0) },
            Action::Idle,
        ]),
{
    reveal_with_fuel(run, 6);
    let m1 = m.next(input_from(m, hw)).0;
    let m2 = m1.next(input_from(m1, hw)).0;
    let m3 = m2.next(input_from(m2, hw)).0;
    let m4 = m3.next(input_from(m3, hw)).0;
    assert(m4.pending =~= seq![Task::MarkOneShot] + rest);
    let m5 = m4.next(input_from(m4, hw)).0;
    assert(m5.pending =~= rest);
}

/// Turning the voltage regulator off: F3 writes ADVREGEN `00` then `10`; L4 sets
/// DEEPPWD.
pub proof fn lemma_regulator_off(m: AdcModel, hw: spec_fn(Reg) -> u32, rest: Seq<Task>)
    requires
        m.pending == regulator_off_script(m.family) + rest,
    ensures
        m.family == Family::F3 ==> run(m, hw, 2).0 == m.with_pending(rest),
        m.family == Family::F3 ==> run(m, hw, 2).1 == (seq![
            Action::Modify { reg: Reg::Cr, update: field_update(28, 2, 0b00) },
            Action::Modify { reg: Reg::Cr, update: field_update(28, 2, 0b10) },
        ]),
        m.family == Family::L4 ==> run(m, hw, 1).0 == m.with_pending(rest),
        m.family == Family::L4 ==> run(m, hw, 1).1 == (seq![
            Action::Modify { reg: Reg::Cr, update: set_bits(0x2000_0000) },
        ]),
{
    reveal_with_fuel(run, 3);
    let m1 = m.next(input_from(m, hw)).0;
    if m.family == Family::F3 {
        let m2 = m1.next(input_from(m1, hw)).0;
        assert(m2.pending =~= rest);
    } else {
        assert(m1.pending =~= rest);
    }
}

/// Injecting the calibration into a disabled ADC enables it first: the first write
/// after the read of CR clears ADRDY and the next sets ADEN.
pub proof fn lemma_inject_enables_disabled_adc(
    m: AdcModel,
    hw: spec_fn(Reg) -> u32,
    rest: Seq<Task>,
)
    requires
        m.pending == inject_script() + rest,
        !enabled_in(hw(Reg::Cr)),
    ensures
        run(m, hw, 4).1 == (seq![
            Action::Read { reg: Reg::Cr },
            Action::Idle,
            Action::Modify { reg: Reg::Isr, update: clear_bits(ISR_ADRDY) },
            Action::Modify { reg: Reg::Cr, update: set_bits(CR_ADEN) },
        ]),
{
    reveal_with_fuel(run, 5);
    let tail = abort_script() + seq![Task::InjectStored] + rest;
    let m1 = m.next(input_from(m, hw)).0;
    assert(m1.pending =~= seq![Task::Decide(Probe::EnableIfOff)] + tail);
    assert(m1.pending.drop_first() =~= tail);
    let m2 = m1.next(input_from(m1, hw)).0;
    assert(m2.pending =~= enable_script() + tail);
    let m3 = m2.next(input_from(m2, hw)).0;
    let m4 = m3.next(input_from(m3, hw)).0;
}

/// The stored factors are written back where calibration reads them: the
/// single-ended factor to bits 0..6 of CALFACT and the differential one to bits
/// 16..22; a factor not stored is not written.
pub proof fn lemma_stored_factors_positions(s: u8, d: u8, old: u32)
    requires
        s < 128,
        d < 128,
    ensures
        stored_cal_script(None, None).len() == 0,
        stored_cal_script(Some(s), None) == seq![
            Task::Write { reg: Reg::Calfact, update: field_update(0, 7, s as u32) },
        ],
        stored_cal_script(None, Some(d)) == seq![
            Task::Write { reg: Reg::Calfact, update: field_update(16, 7, d as u32) },
        ],
        field(field_update(16, 7, d as u32).apply(field_update(0, 7, s as u32).apply(old)), 0, 7)
            == s,
        field(field_update(16, 7, d as u32).apply(field_update(0, 7, s as u32).apply(old)), 16, 7)
            == d,
        stored_cal_script(Some(s), Some(d)) == seq![
            Task::Write { reg: Reg::Calfact, update: field_update(0, 7, s as u32) },
            Task::Write { reg: Reg::Calfact, update: field_update(16, 7, d as u32) },
        ],
{
    lemma_low_mask_values();
    let a = field_update(0, 7, s as u32).apply(old);
    lemma_field_update_reads_back(old, 0, 7, s as u32);
    lemma_field_update_reads_back(a, 16, 7, d as u32);
    let sv = s as u32;
    let dv = d as u32;
    assert(sv < 128 ==> sv & 127 == sv) by (bit_vector);
    assert(dv < 128 ==> dv & 127 == dv) by (bit_vector);
    let b = field_update(16, 7, dv).apply(a);
    assert(b == (a & !(127u32 << 16u32)) | ((dv & 127) << 16u32));
    assert(((((a & !(127u32 << 16u32)) | ((dv & 127) << 16u32)) >> 0u32) & 127) == ((a >> 0u32)
        & 127)) by (bit_vector);
    assert(stored_cal_script(Some(s), None) =~= seq![
        Task::Write { reg: Reg::Calfact, update: field_update(0, 7, s as u32) },
    ]);
    assert(stored_cal_script(None, Some(d)) =~= seq![
        Task::Write { reg: Reg::Calfact, update: field_update(16, 7, d as u32) },
    ]);
    assert(stored_cal_script(Some(s), Some(d)) =~= seq![
        Task::Write { reg: Reg::Calfact, update: field_update(0, 7, s as u32) },
        Task::Write { reg: Reg::Calfact, update: field_update(16, 7, d as u32) },
    ]);
}
} // verus!
