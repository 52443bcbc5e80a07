//! The steps of the ADC procedures of the reference manuals, as data.
//!
//! Each procedure of the driver is a list of tasks: register writes, delays, and
//! reads whose value decides what comes next. The driver in `adc` runs them one
//! step at a time, so that the register accesses themselves stay with the caller.
use vstd::prelude::*;
use crate::bits::{clear_bits, field_update, put_bits, put_field, set_bits, Update};
use crate::config::{Align, ClockMode, InputType, SampleTime};
use crate::regs::{
    Family, Reg, CALFACT_D_OFFSET, CALFACT_S_OFFSET, CALFACT_WIDTH, CFGR_ALIGN, CFGR_CONT,
    CFGR_OVRMOD, CR_ADCAL, CR_ADCALDIF, CR_ADDIS, CR_ADEN, CR_ADSTART, CR_ADSTP, CR_ADVREGEN,
    CR_ADVREGEN_OFFSET, CR_DEEPPWD, CR_JADSTP, ISR_ADRDY, ISR_EOS, ISR_OVR, SMP_WIDTH,
    SQR1_L_OFFSET, SQR1_L_WIDTH, SQR1_SQ1_OFFSET, SQR1_SQ1_WIDTH,
};
use crate::sampling::{smp_field_offset, smp_offset, smp_reg, smp_register, valid_channel};

verus! {

/// A register read whose value decides what the driver does next.
#[derive(Clone, Copy, Debug, PartialEq, Eq, Structural)]
pub enum Probe {
    /// RCC: is the ADC clock already enabled?
    ClockEnabled,
    /// Common CCR: does CKMODE hold the configured clock mode?
    ClockModeMatch,
    /// CR, first read of an abort: is a regular conversion ongoing?
    StopRegular,
    /// CR, second read of an abort: is an injected conversion ongoing?
    StopInjected,
    /// CR, first read of the wait after an abort: is ADSTART still set?
    IdleRegular,
    /// CR, second read of the wait after an abort: is JADSTART still set?
    IdleInjected,
    /// CR: is the voltage regulator on? If not, start it and wait `delay` cycles.
    Regulator { delay: u32 },
    /// CR: enable the ADC if it is disabled.
    EnableIfOff,
    /// CR: disable and enable the ADC again if it is enabled.
    CycleIfOn,
    /// Read `reg` again until `value & mask == expect`.
    Until { reg: Reg, mask: u32, expect: u32 },
    /// CALFACT: keep the calibration factor for `input`.
    CalFactor { input: InputType },
    /// DR: keep the conversion result.
    Data,
}

impl Probe {
    /// The register the probe reads.
    pub open spec fn reg(self) -> Reg {
        match self {
            Probe::ClockEnabled => Reg::RccEnable,
            Probe::ClockModeMatch => Reg::CommonCcr,
            Probe::Until { reg, .. } => reg,
            Probe::CalFactor { .. } => Reg::Calfact,
            Probe::Data => Reg::Dr,
            _ => Reg::Cr,
        }
    }

    /// The register the probe reads.
    pub fn register(self) -> (r: Reg)
        ensures
            r == self.reg(),
    {
        match self {
            Probe::ClockEnabled => Reg::RccEnable,
            Probe::ClockModeMatch => Reg::CommonCcr,
            Probe::Until { reg, .. } => reg,
            Probe::CalFactor { .. } => Reg::Calfact,
            Probe::Data => Reg::Dr,
            _ => Reg::Cr,
        }
    }
}

/// One step of a procedure.
#[derive(Clone, Copy, Debug, PartialEq, Eq, Structural)]
pub enum Task {
    /// Read-modify-write of `reg`.
    Write { reg: Reg, update: Update },
    /// Busy-wait `cycles` CPU cycles.
    Delay { cycles: u32 },
    /// Read the register of the probe.
    Read(Probe),
    /// Act on the value the read of the probe returned.
    Decide(Probe),
    /// Stop if the clock was found enabled with another clock mode.
    RequireClock,
    /// Record that the ADC is in one-shot mode.
    MarkOneShot,
    /// Write the stored calibration factors into CALFACT.
    InjectStored,
}

/// What the caller does for the driver at one step.
#[derive(Clone, Copy, Debug, PartialEq, Eq, Structural)]
pub enum Action {
    /// Read `reg` and hand its value to the next step.
    Read { reg: Reg },
    /// Read `reg`, apply `update` to the value, and write it back.
    Modify { reg: Reg, update: Update },
    /// Busy-wait `cycles` CPU cycles.
    Delay { cycles: u32 },
    /// Nothing to do; call the next step.
    Idle,
    /// Every queued procedure is done.
    Finish,
    /// The clock was already enabled with a different setting: the initialisation fails.
    Fault,
}

/// The longest wait for the voltage regulator to start, in microseconds.
pub const MAX_ADVREGEN_STARTUP_US: u32 = 10;

/// The cycles waited for the voltage regulator to start with the system clock at
/// `sysclk` Hz: `MAX_ADVREGEN_STARTUP_US * 1_000_000 / sysclk`, but at least 2
/// (a shorter delay trips a bug of the cortex-m delay routine).
pub open spec fn startup_delay(sysclk: u32) -> u32 {
    let d = (MAX_ADVREGEN_STARTUP_US * 1_000_000) as int / sysclk as int;
    if d < 2 { 2 } else { d as u32 }
}

/// The cycles waited for the voltage regulator to start.
pub fn advregen_startup_delay(sysclk: u32) -> (r: u32)
    requires
        sysclk > 0,
    ensures
        r == startup_delay(sysclk),
        r >= 2,
{
    let mut delay = (MAX_ADVREGEN_STARTUP_US * 1_000_000) / sysclk;
    if delay < 2 {
        delay = 2;
    }
    delay
}

/// The write that stops the regular and the injected conversions.
pub open spec fn stop_conversions() -> Task {
    Task::Write { reg: Reg::Cr, update: set_bits(CR_ADSTP | CR_JADSTP) }
}

/// Enable the ADC clock and set the clock mode: checks the RCC enable bit; the decision
/// sets the enable bit and CKMODE, or compares CKMODE.
pub open spec fn enable_clock_script() -> Seq<Task> {
    seq![Task::Read(Probe::ClockEnabled)]
}

/// Writes the data alignment.
pub open spec fn align_script(align: Align) -> Seq<Task> {
    seq![Task::Write { reg: Reg::Cfgr, update: put_bits(CFGR_ALIGN, align.code() != 0) }]
}

/// Waits for the voltage regulator to start.
pub open spec fn startup_wait_script(delay: u32) -> Seq<Task> {
    seq![Task::Delay { cycles: delay }]
}

/// Enables the voltage regulator, and leaves deep power down (L4), then waits for
/// it to start.
pub open spec fn regulator_on_script(family: Family, delay: u32) -> Seq<Task> {
    regulator_start_script(family) + startup_wait_script(delay)
}

/// The writes that start the voltage regulator.
pub open spec fn regulator_start_script(family: Family) -> Seq<Task> {
    match family {
        // F303 RM, 15.3.6: ADVREGEN from `10` to `00`, then from `00` to `01`.
        Family::F3 => seq![
            Task::Write { reg: Reg::Cr, update: field_update(CR_ADVREGEN_OFFSET, 2, 0b00) },
            Task::Write { reg: Reg::Cr, update: field_update(CR_ADVREGEN_OFFSET, 2, 0b01) },
        ],
        // L443 RM, 16.4.6: clear DEEPPWD, then set ADVREGEN.
        Family::L4 => seq![
            Task::Write { reg: Reg::Cr, update: clear_bits(CR_DEEPPWD) },
            Task::Write { reg: Reg::Cr, update: set_bits(CR_ADVREGEN) },
        ],
    }
}

/// Disables the voltage regulator: ADVREGEN `01` to `00` to `10` on F3; DEEPPWD on L4,
/// which also clears ADVREGEN.
pub open spec fn regulator_off_script(family: Family) -> Seq<Task> {
    match family {
        Family::F3 => seq![
            Task::Write { reg: Reg::Cr, update: field_update(CR_ADVREGEN_OFFSET, 2, 0b00) },
            Task::Write { reg: Reg::Cr, update: field_update(CR_ADVREGEN_OFFSET, 2, 0b10) },
        ],
        Family::L4 => seq![Task::Write { reg: Reg::Cr, update: set_bits(CR_DEEPPWD) }],
    }
}

/// Stops the regular and injected conversions if one is ongoing, then waits until
/// ADSTART and JADSTART are both clear.
pub open spec fn abort_script() -> Seq<Task> {
    seq![Task::Read(Probe::StopRegular), Task::Read(Probe::IdleRegular)]
}

/// Aborts the conversions, then sets ADDIS.
pub open spec fn disable_script() -> Seq<Task> {
    abort_script() + seq![Task::Write { reg: Reg::Cr, update: set_bits(CR_ADDIS) }]
}

/// Clears ADRDY, sets ADEN, waits for ADRDY, clears ADRDY again.
pub open spec fn enable_script() -> Seq<Task> {
    seq![
        Task::Write { reg: Reg::Isr, update: clear_bits(ISR_ADRDY) },
        Task::Write { reg: Reg::Cr, update: set_bits(CR_ADEN) },
        Task::Read(Probe::Until { reg: Reg::Isr, mask: ISR_ADRDY, expect: ISR_ADRDY }),
        Task::Write { reg: Reg::Isr, update: clear_bits(ISR_ADRDY) },
    ]
}

/// The write that selects the calibration input and starts the calibration.
pub open spec fn start_calibration(input: InputType) -> Update {
    Update {
        mask: CR_ADCALDIF | CR_ADCAL,
        bits: if input.code() != 0 { CR_ADCALDIF | CR_ADCAL } else { CR_ADCAL },
    }
}

/// Calibration (L4 RM 16.5.8, F3 RM 15.3.8): regulator on, ADC disabled, ADCALDIF
/// and ADCAL written, wait for ADCAL to clear, keep the factor from CALFACT.
pub open spec fn calibrate_script(input: InputType, delay: u32) -> Seq<Task> {
    seq![Task::Read(Probe::Regulator { delay })] + disable_script() + seq![
        Task::Write { reg: Reg::Cr, update: start_calibration(input) },
        Task::Read(Probe::Until { reg: Reg::Cr, mask: CR_ADCAL, expect: 0 }),
        Task::Read(Probe::CalFactor { input }),
    ]
}

/// Writes L, the sequence length minus one.
pub open spec fn sequence_len_script(len: u8) -> Seq<Task> {
    seq![
        Task::Write {
            reg: Reg::Sqr1,
            update: field_update(SQR1_L_OFFSET, SQR1_L_WIDTH, (len - 1) as u32),
        },
    ]
}

/// Sets up one-shot mode for a single channel.
pub open spec fn setup_oneshot_script() -> Seq<Task> {
    seq![
        Task::Write { reg: Reg::Cr, update: set_bits(CR_ADSTP) },
        Task::Write { reg: Reg::Isr, update: clear_bits(ISR_OVR) },
        Task::Write { reg: Reg::Cfgr, update: clear_bits(CFGR_CONT | CFGR_OVRMOD) },
    ] + sequence_len_script(1) + seq![Task::MarkOneShot]
}

/// Writes the sampling time of `chan`.
pub open spec fn chan_smps_script(chan: u8, smp: SampleTime) -> Seq<Task> {
    seq![
        Task::Write {
            reg: smp_reg(chan),
            update: field_update(smp_offset(chan), SMP_WIDTH, smp.code() as u32),
        },
    ]
}

/// Selects `chan` as the first (and only) channel of the regular sequence.
pub open spec fn single_chan_script(chan: u8) -> Seq<Task> {
    seq![
        Task::Write {
            reg: Reg::Sqr1,
            update: field_update(SQR1_SQ1_OFFSET, SQR1_SQ1_WIDTH, chan as u32),
        },
    ]
}

/// A single conversion of `chan`: default sampling time, channel selection, ADSTART,
/// wait for EOS, clear EOS, read DR.
pub open spec fn convert_script(chan: u8) -> Seq<Task> {
    chan_smps_script(chan, SampleTime::T1) + single_chan_script(chan) + seq![
        Task::Write { reg: Reg::Cr, update: set_bits(CR_ADSTART) },
        Task::Read(Probe::Until { reg: Reg::Isr, mask: ISR_EOS, expect: ISR_EOS }),
        Task::Write { reg: Reg::Isr, update: set_bits(ISR_EOS) },
        Task::Read(Probe::Data),
    ]
}

/// The writes of a stored calibration factor into CALFACT.
pub open spec fn cal_write_script(cal: Option<u8>, offset: u32) -> Seq<Task> {
    match cal {
        Some(c) => seq![
            Task::Write {
                reg: Reg::Calfact,
                update: field_update(offset, CALFACT_WIDTH, c as u32),
            },
        ],
        None => seq![],
    }
}

/// Puts saved calibration factors back (L4 RM 16.4.8): ADC enabled, no conversion
/// ongoing, then CALFACT_S and CALFACT_D written.
pub open spec fn inject_script() -> Seq<Task> {
    seq![Task::Read(Probe::EnableIfOff)] + abort_script() + seq![Task::InjectStored]
}

/// The writes of the stored calibration factors.
pub open spec fn stored_cal_script(
    single_ended: Option<u8>,
    differential: Option<u8>,
) -> Seq<Task> {
    cal_write_script(single_ended, CALFACT_S_OFFSET) + cal_write_script(
        differential,
        CALFACT_D_OFFSET,
    )
}

/// Selects single-ended or differential input: the ADC is disabled and enabled again
/// if it is enabled.
pub open spec fn input_type_script() -> Seq<Task> {
    seq![Task::Read(Probe::CycleIfOn)]
}

/// The wait between the end of the calibration and ADEN: 4 ADC clock cycles per
/// step of the clock mode code.
pub open spec fn calibration_settle_script(ckmode: ClockMode) -> Seq<Task> {
    seq![Task::Delay { cycles: (ckmode.code() * 4) as u32 }]
}

/// The initialisation: clock, alignment, regulator, single-ended calibration, the wait
/// after it, enable, one-shot mode.
pub open spec fn init_script(family: Family, ckmode: ClockMode, delay: u32) -> Seq<Task> {
    enable_clock_script() + seq![Task::RequireClock] + align_script(Align::Right)
        + regulator_on_script(family, delay) + calibrate_script(InputType::SingleEnded, delay)
        + calibration_settle_script(ckmode) + enable_script() + setup_oneshot_script()
}

/// Appends `enable_clock_script()`.
pub fn add_enable_clock(v: &mut Vec<Task>)
    ensures
        final(v)@ == old(v)@ + enable_clock_script(),
{
    v.push(Task::Read(Probe::ClockEnabled));
}

/// Appends `align_script(align)`.
pub fn add_align(v: &mut Vec<Task>, align: Align)
    ensures
        final(v)@ == old(v)@ + align_script(align),
{
    let on = align.bits() != 0;
    v.push(
        Task::Write {
            reg: Reg::Cfgr,
            update: Update { mask: CFGR_ALIGN, bits: if on { CFGR_ALIGN } else { 0 } },
        },
    );
}

/// Appends `startup_wait_script(delay)`.
pub fn add_startup_wait(v: &mut Vec<Task>, delay: u32)
    ensures
        final(v)@ == old(v)@ + startup_wait_script(delay),
{
    v.push(Task::Delay { cycles: delay });
}

/// Appends `regulator_start_script(family)`.
pub fn add_regulator_start(v: &mut Vec<Task>, family: Family)
    ensures
        final(v)@ == old(v)@ + regulator_start_script(family),
{
    match family {
        Family::F3 => {
            v.push(Task::Write { reg: Reg::Cr, update: put_field(CR_ADVREGEN_OFFSET, 2, 0b00) });
            v.push(Task::Write { reg: Reg::Cr, update: put_field(CR_ADVREGEN_OFFSET, 2, 0b01) });
        },
        Family::L4 => {
            v.push(Task::Write { reg: Reg::Cr, update: Update { mask: CR_DEEPPWD, bits: 0 } });
            let on = Update { mask: CR_ADVREGEN, bits: CR_ADVREGEN };
            v.push(Task::Write { reg: Reg::Cr, update: on });
        },
    }
}

/// Appends `regulator_on_script(family, delay)`.
pub fn add_regulator_on(v: &mut Vec<Task>, family: Family, delay: u32)
    ensures
        final(v)@ == old(v)@ + regulator_on_script(family, delay),
{
    add_regulator_start(v, family);
    add_startup_wait(v, delay);
}

/// Appends `regulator_off_script(family)`.
pub fn add_regulator_off(v: &mut Vec<Task>, family: Family)
    ensures
        final(v)@ == old(v)@ + regulator_off_script(family),
{
    match family {
        Family::F3 => {
            v.push(Task::Write { reg: Reg::Cr, update: put_field(CR_ADVREGEN_OFFSET, 2, 0b00) });
            v.push(Task::Write { reg: Reg::Cr, update: put_field(CR_ADVREGEN_OFFSET, 2, 0b10) });
        },
        Family::L4 => {
            let off = Update { mask: CR_DEEPPWD, bits: CR_DEEPPWD };
            v.push(Task::Write { reg: Reg::Cr, update: off });
        },
    }
}

/// Appends `abort_script()`.
pub fn add_abort(v: &mut Vec<Task>)
    ensures
        final(v)@ == old(v)@ + abort_script(),
{
    v.push(Task::Read(Probe::StopRegular));
    v.push(Task::Read(Probe::IdleRegular));
}

/// Appends `disable_script()`.
pub fn add_disable(v: &mut Vec<Task>)
    ensures
        final(v)@ == old(v)@ + disable_script(),
{
    add_abort(v);
    v.push(Task::Write { reg: Reg::Cr, update: Update { mask: CR_ADDIS, bits: CR_ADDIS } });
}

/// Appends `enable_script()`.
pub fn add_enable(v: &mut Vec<Task>)
    ensures
        final(v)@ == old(v)@ + enable_script(),
{
    v.push(Task::Write { reg: Reg::Isr, update: Update { mask: ISR_ADRDY, bits: 0 } });
    v.push(Task::Write { reg: Reg::Cr, update: Update { mask: CR_ADEN, bits: CR_ADEN } });
    v.push(Task::Read(Probe::Until { reg: Reg::Isr, mask: ISR_ADRDY, expect: ISR_ADRDY }));
    v.push(Task::Write { reg: Reg::Isr, update: Update { mask: ISR_ADRDY, bits: 0 } });
}

/// Appends `calibrate_script(input, delay)`.
pub fn add_calibrate(v: &mut Vec<Task>, input: InputType, delay: u32)
    ensures
        final(v)@ == old(v)@ + calibrate_script(input, delay),
{
    v.push(Task::Read(Probe::Regulator { delay }));
    add_disable(v);
    let differential = input.bits() != 0;
    let start = Update {
        mask: CR_ADCALDIF | CR_ADCAL,
        bits: if differential { CR_ADCALDIF | CR_ADCAL } else { CR_ADCAL },
    };
    v.push(Task::Write { reg: Reg::Cr, update: start });
    v.push(Task::Read(Probe::Until { reg: Reg::Cr, mask: CR_ADCAL, expect: 0 }));
    v.push(Task::Read(Probe::CalFactor { input }));
}

/// Appends `sequence_len_script(len)`.
pub fn add_sequence_len(v: &mut Vec<Task>, len: u8)
    requires
        1 <= len <= 16,
    ensures
        final(v)@ == old(v)@ + sequence_len_script(len),
{
    let update = put_field(SQR1_L_OFFSET, SQR1_L_WIDTH, (len - 1) as u32);
    v.push(Task::Write { reg: Reg::Sqr1, update });
}

/// Appends `setup_oneshot_script()`.
pub fn add_setup_oneshot(v: &mut Vec<Task>)
    ensures
        final(v)@ == old(v)@ + setup_oneshot_script(),
{
    v.push(Task::Write { reg: Reg::Cr, update: Update { mask: CR_ADSTP, bits: CR_ADSTP } });
    v.push(Task::Write { reg: Reg::Isr, update: Update { mask: ISR_OVR, bits: 0 } });
    let single = Update { mask: CFGR_CONT | CFGR_OVRMOD, bits: 0 };
    v.push(Task::Write { reg: Reg::Cfgr, update: single });
    add_sequence_len(v, 1);
    v.push(Task::MarkOneShot);
}

/// Appends `chan_smps_script(chan, smp)`.
pub fn add_chan_smps(v: &mut Vec<Task>, chan: u8, smp: SampleTime)
    requires
        valid_channel(chan),
    ensures
        final(v)@ == old(v)@ + chan_smps_script(chan, smp),
{
    let reg = smp_register(chan);
    let offset = smp_field_offset(chan);
    let update = put_field(offset, SMP_WIDTH, smp.bits() as u32);
    v.push(Task::Write { reg, update });
}

/// Appends `single_chan_script(chan)`.
pub fn add_single_chan(v: &mut Vec<Task>, chan: u8)
    ensures
        final(v)@ == old(v)@ + single_chan_script(chan),
{
    let update = put_field(SQR1_SQ1_OFFSET, SQR1_SQ1_WIDTH, chan as u32);
    v.push(Task::Write { reg: Reg::Sqr1, update });
}

/// Appends `convert_script(chan)`.
pub fn add_convert(v: &mut Vec<Task>, chan: u8)
    requires
        valid_channel(chan),
    ensures
        final(v)@ == old(v)@ + convert_script(chan),
{
    add_chan_smps(v, chan, SampleTime::default());
    add_single_chan(v, chan);
    v.push(Task::Write { reg: Reg::Cr, update: Update { mask: CR_ADSTART, bits: CR_ADSTART } });
    v.push(Task::Read(Probe::Until { reg: Reg::Isr, mask: ISR_EOS, expect: ISR_EOS }));
    v.push(Task::Write { reg: Reg::Isr, update: Update { mask: ISR_EOS, bits: ISR_EOS } });
    v.push(Task::Read(Probe::Data));
}

/// Appends `cal_write_script(cal, offset)`.
pub fn add_cal_write(v: &mut Vec<Task>, cal: Option<u8>, offset: u32)
    requires
        offset == CALFACT_S_OFFSET || offset == CALFACT_D_OFFSET,
    ensures
        final(v)@ == old(v)@ + cal_write_script(cal, offset),
{
    if let Some(c) = cal {
        let update = put_field(offset, CALFACT_WIDTH, c as u32);
        v.push(Task::Write { reg: Reg::Calfact, update });
    }
}

/// Appends `inject_script()`.
pub fn add_inject(v: &mut Vec<Task>)
    ensures
        final(v)@ == old(v)@ + inject_script(),
{
    v.push(Task::Read(Probe::EnableIfOff));
    add_abort(v);
    v.push(Task::InjectStored);
}

/// Appends `stored_cal_script(single_ended, differential)`.
pub fn add_stored_cal(v: &mut Vec<Task>, single_ended: Option<u8>, differential: Option<u8>)
    ensures
        final(v)@ == old(v)@ + stored_cal_script(single_ended, differential),
{
    add_cal_write(v, single_ended, CALFACT_S_OFFSET);
    add_cal_write(v, differential, CALFACT_D_OFFSET);
}

/// Appends `input_type_script()`.
pub fn add_input_type(v: &mut Vec<Task>)
    ensures
        final(v)@ == old(v)@ + input_type_script(),
{
    v.push(Task::Read(Probe::CycleIfOn));
}

/// Appends `calibration_settle_script(ckmode)`.
pub fn add_calibration_settle(v: &mut Vec<Task>, ckmode: ClockMode)
    ensures
        final(v)@ == old(v)@ + calibration_settle_script(ckmode),
{
    v.push(Task::Delay { cycles: ckmode.bits() as u32 * 4 });
}

/// Appends `init_script(family, ckmode, delay)`.
pub fn add_init(v: &mut Vec<Task>, family: Family, ckmode: ClockMode, delay: u32)
    ensures
        final(v)@ == old(v)@ + init_script(family, ckmode, delay),
{
    add_enable_clock(v);
    v.push(Task::RequireClock);
    add_align(v, Align::default());
    add_regulator_on(v, family, delay);
    add_calibrate(v, InputType::SingleEnded, delay);
    add_calibration_settle(v, ckmode);
    add_enable(v);
    add_setup_oneshot(v);
}

} // verus!
