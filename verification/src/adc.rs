//! The ADC driver.
//!
//! `Adc` holds what the driver knows of the peripheral and the queue of steps of
//! the procedures asked of it. It never touches the hardware: each call of `step`
//! says which register to read or modify next, or how long to wait, and takes the
//! value of the last read. The caller performs the action and calls `step` again
//! until it answers `Finish`.
use std::collections::VecDeque;
use vstd::prelude::*;
use crate::bits::{field, field_update, put_field, set_bits, Update};
pub use crate::config::{Align, ClockMode, InputType, OperationMode, SampleTime};
pub use crate::AdcChannel;
use crate::regs::{
    clock_enable_bit, clock_enable_mask, enabled_in, is_advregen_enabled, is_enabled,
    regulator_on_in, AdcNum, Family, Reg, CALFACT_D_OFFSET, CALFACT_S_OFFSET, CALFACT_WIDTH,
    CCR_CKMODE_OFFSET, CCR_CKMODE_WIDTH, CR_ADSTART, CR_ADSTP, CR_JADSTART, CR_JADSTP,
};
use crate::sampling::valid_channel;
use crate::script::{
    abort_script, add_abort, add_align, add_calibrate, add_chan_smps, add_convert, add_disable,
    add_enable, add_enable_clock, add_init, add_inject, add_input_type, add_regulator_off,
    add_regulator_on, add_sequence_len, add_setup_oneshot, add_single_chan, add_startup_wait,
    add_stored_cal, advregen_startup_delay, align_script, calibrate_script, chan_smps_script,
    convert_script, disable_script, enable_clock_script, enable_script, init_script,
    inject_script, input_type_script, regulator_off_script, regulator_on_script,
    sequence_len_script, setup_oneshot_script, single_chan_script, startup_delay,
    startup_wait_script, stop_conversions, stored_cal_script, Action, Probe, Task,
};

verus! {

/// What the driver knows, seen as plain values.
#[verifier::ext_equal]
pub struct AdcModel {
    pub unit: AdcNum,
    pub family: Family,
    pub ckmode: ClockMode,
    pub operation_mode: OperationMode,
    /// Stored calibration value for single-ended inputs.
    pub cal_single_ended: Option<u8>,
    /// Stored calibration value for differential inputs.
    pub cal_differential: Option<u8>,
    /// Whether the last clock check found the clock usable with `ckmode`.
    pub clock_ok: bool,
    /// The result of the last conversion.
    pub reading: Option<u16>,
    /// The steps still to run, the next one first.
    pub pending: Seq<Task>,
}

impl AdcModel {
    /// The state of a new driver: nothing calibrated nor read, the initialisation
    /// pending, with `delay` cycles for the voltage regulator to start.
    pub open spec fn initial(
        unit: AdcNum,
        family: Family,
        ckmode: ClockMode,
        delay: u32,
    ) -> AdcModel {
        AdcModel {
            unit,
            family,
            ckmode,
            operation_mode: OperationMode::OneShot,
            cal_single_ended: None,
            cal_differential: None,
            clock_ok: false,
            reading: None,
            pending: init_script(family, ckmode, delay),
        }
    }

    /// The same state with `pending` steps.
    pub open spec fn with_pending(self, pending: Seq<Task>) -> AdcModel {
        AdcModel { pending, ..self }
    }

    /// The state after the value `v` of the read of `probe`, with `rest` the steps
    /// that followed it.
    pub open spec fn decide(self, probe: Probe, v: u32, rest: Seq<Task>) -> AdcModel {
        match probe {
            Probe::ClockEnabled => if v & clock_enable_mask(self.family, self.unit) != 0 {
                // Already on: the answer is whether CKMODE matches; nothing is written.
                self.with_pending(seq![Task::Read(Probe::ClockModeMatch)] + rest)
            } else {
                AdcModel {
                    clock_ok: true,
                    pending: seq![
                        Task::Write {
                            reg: Reg::RccEnable,
                            update: set_bits(clock_enable_mask(self.family, self.unit)),
                        },
                        Task::Write {
                            reg: Reg::CommonCcr,
                            update: field_update(
                                CCR_CKMODE_OFFSET,
                                CCR_CKMODE_WIDTH,
                                self.ckmode.code() as u32,
                            ),
                        },
                    ] + rest,
                    ..self
                }
            },
            Probe::ClockModeMatch => AdcModel {
                clock_ok: field(v, CCR_CKMODE_OFFSET, CCR_CKMODE_WIDTH) == self.ckmode.code(),
                pending: rest,
                ..self
            },
            Probe::StopRegular => if v & CR_ADSTART != 0 {
                self.with_pending(seq![stop_conversions()] + rest)
            } else {
                self.with_pending(seq![Task::Read(Probe::StopInjected)] + rest)
            },
            Probe::StopInjected => if v & CR_JADSTART != 0 {
                self.with_pending(seq![stop_conversions()] + rest)
            } else {
                self.with_pending(rest)
            },
            Probe::IdleRegular => if v & CR_ADSTART != 0 {
                self.with_pending(seq![Task::Read(Probe::IdleRegular)] + rest)
            } else {
                self.with_pending(seq![Task::Read(Probe::IdleInjected)] + rest)
            },
            Probe::IdleInjected => if v & CR_JADSTART != 0 {
                self.with_pending(seq![Task::Read(Probe::IdleRegular)] + rest)
            } else {
                self.with_pending(rest)
            },
            Probe::Regulator { delay } => if regulator_on_in(self.family, v) {
                self.with_pending(rest)
            } else {
                self.with_pending(regulator_on_script(self.family, delay) + rest)
            },
            Probe::EnableIfOff => if enabled_in(v) {
                self.with_pending(rest)
            } else {
                self.with_pending(enable_script() + rest)
            },
            Probe::CycleIfOn => if enabled_in(v) {
                self.with_pending(disable_script() + enable_script() + rest)
            } else {
                self.with_pending(rest)
            },
            Probe::Until { reg, mask, expect } => if v & mask == expect {
                self.with_pending(rest)
            } else {
                self.with_pending(seq![Task::Read(probe)] + rest)
            },
            Probe::CalFactor { input } => match input {
                InputType::SingleEnded => AdcModel {
                    cal_single_ended: Some(field(v, CALFACT_S_OFFSET, CALFACT_WIDTH) as u8),
                    pending: rest,
                    ..self
                },
                InputType::Differential => AdcModel {
                    cal_differential: Some(field(v, CALFACT_D_OFFSET, CALFACT_WIDTH) as u8),
                    pending: rest,
                    ..self
                },
            },
            Probe::Data => AdcModel { reading: Some(v as u16), pending: rest, ..self },
        }
    }

    /// One step: the state after it and the action it asks for, given the value
    /// `input` returned by the last read.
    pub open spec fn next(self, input: u32) -> (AdcModel, Action) {
        if self.pending.len() == 0 {
            (self, Action::Finish)
        } else {
            let rest = self.pending.drop_first();
            match self.pending[0] {
                Task::Write { reg, update } => (
                    self.with_pending(rest),
                    Action::Modify { reg, update },
                ),
                Task::Delay { cycles } => (self.with_pending(rest), Action::Delay { cycles }),
                Task::Read(probe) => (
                    self.with_pending(seq![Task::Decide(probe)] + rest),
                    Action::Read { reg: probe.reg() },
                ),
                Task::Decide(probe) => (self.decide(probe, input, rest), Action::Idle),
                Task::RequireClock => if self.clock_ok {
                    (self.with_pending(rest), Action::Idle)
                } else {
                    (self.with_pending(Seq::empty()), Action::Fault)
                },
                Task::MarkOneShot => (
                    AdcModel { operation_mode: OperationMode::OneShot, pending: rest, ..self },
                    Action::Idle,
                ),
                Task::InjectStored => (
                    self.with_pending(
                        stored_cal_script(self.cal_single_ended, self.cal_differential) + rest,
                    ),
                    Action::Idle,
                ),
            }
        }
    }
}

/// Analog Digital Converter Peripheral
pub struct Adc {
    unit: AdcNum,
    family: Family,
    ckmode: ClockMode,
    operation_mode: OperationMode,
    /// Stored calibration value for single-ended
    cal_single_ended: Option<u8>,
    /// Stored calibration value for differential
    cal_differential: Option<u8>,
    clock_ok: bool,
    reading: Option<u16>,
    tasks: VecDeque<Task>,
}

impl View for Adc {
    type V = AdcModel;

    closed spec fn view(&self) -> AdcModel {
        AdcModel {
            unit: self.unit,
            family: self.family,
            ckmode: self.ckmode,
            operation_mode: self.operation_mode,
            cal_single_ended: self.cal_single_ended,
            cal_differential: self.cal_differential,
            clock_ok: self.clock_ok,
            reading: self.reading,
            pending: self.tasks@,
        }
    }
}

impl Adc {
    /// Queues `script` after the steps already pending.
    fn queue(&mut self, script: Vec<Task>)
        ensures
            final(self)@ == old(self)@.with_pending(old(self)@.pending + script@),
    {
        let mut i: usize = 0;
        while i < script.len()
            invariant
                i <= script@.len(),
                self@ == old(self)@.with_pending(
                    old(self)@.pending + script@.subrange(0, i as int),
                ),
            decreases script@.len() - i,
        {
            self.tasks.push_back(script[i]);
            i += 1;
            assert(old(self)@.pending + script@.subrange(0, i as int) =~= (old(self)@.pending
                + script@.subrange(0, i - 1)).push(script@[i - 1]));
        }
        assert(script@.subrange(0, script@.len() as int) =~= script@);
    }

    /// Puts `script` before the steps still pending.
    fn run_first(&mut self, script: Vec<Task>)
        ensures
            final(self)@ == old(self)@.with_pending(script@ + old(self)@.pending),
    {
        let mut i: usize = script.len();
        while i > 0
            invariant
                i <= script@.len(),
                self@ == old(self)@.with_pending(
                    script@.subrange(i as int, script@.len() as int) + old(self)@.pending,
                ),
            decreases i,
        {
            i -= 1;
            self.tasks.push_front(script[i]);
            assert(seq![script@[i as int]] + (script@.subrange(i + 1, script@.len() as int)
                + old(self)@.pending) =~= script@.subrange(i as int, script@.len() as int)
                + old(self)@.pending);
        }
        assert(script@.subrange(0, script@.len() as int) =~= script@);
    }

    /// Acts on the value `v` that the read of `probe` returned; the steps that
    /// followed the read are pending.
    fn decide(&mut self, probe: Probe, v: u32)
        ensures
            final(self)@ == old(self)@.decide(probe, v, old(self)@.pending),
    {
        proof {
            crate::bits::lemma_low_mask_values();
        }
        let stop = Update { mask: CR_ADSTP | CR_JADSTP, bits: CR_ADSTP | CR_JADSTP };
        let mut next: Vec<Task> = Vec::new();
        match probe {
            Probe::ClockEnabled => {
                let enable = clock_enable_bit(self.family, self.unit);
                if v & enable != 0 {
                    next.push(Task::Read(Probe::ClockModeMatch));
                } else {
                    self.clock_ok = true;
                    let on = Update { mask: enable, bits: enable };
                    next.push(Task::Write { reg: Reg::RccEnable, update: on });
                    let mode = self.ckmode.bits() as u32;
                    let ck = put_field(CCR_CKMODE_OFFSET, CCR_CKMODE_WIDTH, mode);
                    next.push(Task::Write { reg: Reg::CommonCcr, update: ck });
                }
            },
            Probe::ClockModeMatch => {
                self.clock_ok = (v >> CCR_CKMODE_OFFSET) & 0b11 == self.ckmode.bits() as u32;
            },
            Probe::StopRegular => {
                if v & CR_ADSTART != 0 {
                    next.push(Task::Write { reg: Reg::Cr, update: stop });
                } else {
                    next.push(Task::Read(Probe::StopInjected));
                }
            },
            Probe::StopInjected => {
                if v & CR_JADSTART != 0 {
                    next.push(Task::Write { reg: Reg::Cr, update: stop });
                }
            },
            Probe::IdleRegular => {
                if v & CR_ADSTART != 0 {
                    next.push(Task::Read(Probe::IdleRegular));
                } else {
                    next.push(Task::Read(Probe::IdleInjected));
                }
            },
            Probe::IdleInjected => {
                if v & CR_JADSTART != 0 {
                    next.push(Task::Read(Probe::IdleRegular));
                }
            },
            Probe::Regulator { delay } => {
                if !is_advregen_enabled(self.family, v) {
                    add_regulator_on(&mut next, self.family, delay);
                }
            },
            Probe::EnableIfOff => {
                if !is_enabled(v) {
                    add_enable(&mut next);
                }
            },
            Probe::CycleIfOn => {
                if is_enabled(v) {
                    add_disable(&mut next);
                    add_enable(&mut next);
                }
            },
            Probe::Until { reg, mask, expect } => {
                if v & mask != expect {
                    next.push(Task::Read(probe));
                }
            },
            Probe::CalFactor { input } => {
                match input {
                    InputType::SingleEnded => {
                        self.cal_single_ended = Some(((v >> CALFACT_S_OFFSET) & 0x7f) as u8);
                    },
                    InputType::Differential => {
                        self.cal_differential = Some(((v >> CALFACT_D_OFFSET) & 0x7f) as u8);
                    },
                }
            },
            Probe::Data => {
                self.reading = Some(v as u16);
            },
        }
        self.run_first(next);
    }

    /// A driver for ADC `unit` with the initialisation queued.
    fn start(unit: AdcNum, family: Family, ckmode: ClockMode, sysclk: u32) -> (r: Adc)
        requires
            sysclk > 0,
        ensures
            r@ == AdcModel::initial(unit, family, ckmode, startup_delay(sysclk)),
    {
        let mut this_adc = Adc {
            unit,
            family,
            ckmode,
            operation_mode: OperationMode::OneShot,
            cal_single_ended: None,
            cal_differential: None,
            clock_ok: false,
            reading: None,
            tasks: VecDeque::new(),
        };
        let mut script: Vec<Task> = Vec::new();
        add_init(&mut script, family, ckmode, advregen_startup_delay(sysclk));
        this_adc.queue(script);
        this_adc
    }

    /// Init a new ADC1
    ///
    /// Enables the clock, performs a calibration and enables the ADC: the returned
    /// driver has the whole initialisation pending. `sysclk` is the system clock in Hz.
    ///
    /// # Fails
    /// With `Action::Fault` if the clock was already enabled with a different setting.
    pub fn new_adc1_unchecked(family: Family, ckmode: ClockMode, sysclk: u32) -> (r: Adc)
        requires
            sysclk > 0,
        ensures
            r@ == AdcModel::initial(AdcNum::One, family, ckmode, startup_delay(sysclk)),
    {
        Self::start(AdcNum::One, family, ckmode, sysclk)
    }

    /// Init a new ADC2; see `new_adc1_unchecked`.
    pub fn new_adc2_unchecked(family: Family, ckmode: ClockMode, sysclk: u32) -> (r: Adc)
        requires
            sysclk > 0,
        ensures
            r@ == AdcModel::initial(AdcNum::Two, family, ckmode, startup_delay(sysclk)),
    {
        Self::start(AdcNum::Two, family, ckmode, sysclk)
    }

    /// Init a new ADC3; see `new_adc1_unchecked`.
    pub fn new_adc3_unchecked(family: Family, ckmode: ClockMode, sysclk: u32) -> (r: Adc)
        requires
            sysclk > 0,
        ensures
            r@ == AdcModel::initial(AdcNum::Three, family, ckmode, startup_delay(sysclk)),
    {
        Self::start(AdcNum::Three, family, ckmode, sysclk)
    }

    /// Init a new ADC4; see `new_adc1_unchecked`.
    pub fn new_adc4_unchecked(family: Family, ckmode: ClockMode, sysclk: u32) -> (r: Adc)
        requires
            sysclk > 0,
        ensures
            r@ == AdcModel::initial(AdcNum::Four, family, ckmode, startup_delay(sysclk)),
    {
        Self::start(AdcNum::Four, family, ckmode, sysclk)
    }

    /// Enable the ADC clock, and set the clock mode. The check leaves in `clock_ok`
    /// whether the clock is usable with the configured mode.
    pub fn enable_clock(&mut self)
        ensures
            final(self)@ == old(self)@.with_pending(old(self)@.pending + enable_clock_script()),
    {
        let mut script: Vec<Task> = Vec::new();
        add_enable_clock(&mut script);
        self.queue(script);
    }

    /// sets up adc in one shot mode for a single channel
    pub fn setup_oneshot(&mut self)
        ensures
            final(self)@ == old(self)@.with_pending(old(self)@.pending + setup_oneshot_script()),
    {
        let mut script: Vec<Task> = Vec::new();
        add_setup_oneshot(&mut script);
        self.queue(script);
    }

    /// Sets the length of the regular sequence, from 1 to 16.
    pub fn set_sequence_len(&mut self, len: u8)
        requires
            1 <= len <= 16,
        ensures
            final(self)@ == old(self)@.with_pending(old(self)@.pending + sequence_len_script(len)),
    {
        let mut script: Vec<Task> = Vec::new();
        add_sequence_len(&mut script, len);
        self.queue(script);
    }

    /// Sets the data alignment.
    pub fn set_align(&mut self, align: Align)
        ensures
            final(self)@ == old(self)@.with_pending(old(self)@.pending + align_script(align)),
    {
        let mut script: Vec<Task> = Vec::new();
        add_align(&mut script, align);
        self.queue(script);
    }

    /// Enable the ADC.
    /// ADEN=1 enables the ADC. The flag ADRDY will be set once the ADC is ready for
    /// operation.
    pub fn enable(&mut self)
        ensures
            final(self)@ == old(self)@.with_pending(old(self)@.pending + enable_script()),
    {
        let mut script: Vec<Task> = Vec::new();
        add_enable(&mut script);
        self.queue(script);
    }

    /// Disable the ADC.
    /// ADDIS=1 disables the ADC. ADEN and ADDIS are then automatically cleared by
    /// hardware as soon as the analog ADC is effectively disabled
    pub fn disable(&mut self)
        ensures
            final(self)@ == old(self)@.with_pending(old(self)@.pending + disable_script()),
    {
        let mut script: Vec<Task> = Vec::new();
        add_disable(&mut script);
        self.queue(script);
    }

    /// If any conversions are in progress, stop them. This is a step listed in the RMs
    /// for disable, and calibration procedures.
    pub fn abort_conversions(&mut self)
        ensures
            final(self)@ == old(self)@.with_pending(old(self)@.pending + abort_script()),
    {
        let mut script: Vec<Task> = Vec::new();
        add_abort(&mut script);
        self.queue(script);
    }

    /// Enable the voltage regulator, and exit deep sleep mode (some MCUs), then wait
    /// for it to start; `sysclk` is the system clock in Hz.
    pub fn advregen_enable(&mut self, sysclk: u32)
        requires
            sysclk > 0,
        ensures
            final(self)@ == old(self)@.with_pending(
                old(self)@.pending + regulator_on_script(old(self)@.family, startup_delay(sysclk)),
            ),
    {
        let mut script: Vec<Task> = Vec::new();
        add_regulator_on(&mut script, self.family, advregen_startup_delay(sysclk));
        self.queue(script);
    }

    /// Disable power, eg to save power in low power modes. Inferred from RM,
    /// we should run this before entering `STOP` mode, in conjunction with with
    /// disabling the ADC.
    pub fn advregen_disable(&mut self)
        ensures
            final(self)@ == old(self)@.with_pending(
                old(self)@.pending + regulator_off_script(old(self)@.family),
            ),
    {
        let mut script: Vec<Task> = Vec::new();
        add_regulator_off(&mut script, self.family);
        self.queue(script);
    }

    /// Wait for the advregen to startup.
    ///
    /// This is based on the MAX_ADVREGEN_STARTUP_US of the device.
    pub fn wait_advregen_startup(&mut self, sysclk: u32)
        requires
            sysclk > 0,
        ensures
            final(self)@ == old(self)@.with_pending(
                old(self)@.pending + startup_wait_script(startup_delay(sysclk)),
            ),
    {
        let mut script: Vec<Task> = Vec::new();
        add_startup_wait(&mut script, advregen_startup_delay(sysclk));
        self.queue(script);
    }

    /// Calibrate. See L4 RM, 16.5.8, or F404 RM, section 15.3.8.
    /// Stores calibration values, which can be re-inserted later,
    /// eg after entering ADC deep sleep mode, or MCU STANDBY or VBAT.
    pub fn calibrate(&mut self, input_type: InputType, sysclk: u32)
        requires
            sysclk > 0,
        ensures
            final(self)@ == old(self)@.with_pending(
                old(self)@.pending + calibrate_script(input_type, startup_delay(sysclk)),
            ),
    {
        let mut script: Vec<Task> = Vec::new();
        add_calibrate(&mut script, input_type, advregen_startup_delay(sysclk));
        self.queue(script);
    }

    /// Insert a previously-saved calibration value into the ADC.
    /// Se L4 RM, 16.4.8.
    pub fn inject_calibration(&mut self)
        ensures
            final(self)@ == old(self)@.with_pending(old(self)@.pending + inject_script()),
    {
        let mut script: Vec<Task> = Vec::new();
        add_inject(&mut script);
        self.queue(script);
    }

    /// Select single-ended, or differential conversions for a given channel.
    ///
    /// The DIFSEL bits are not written: the ADC is only disabled and enabled again
    /// if it is enabled, as the configuration must be written while ADEN=0.
    #[allow(unused_variables)]
    pub fn set_input_type(&mut self, channel: u8, input_type: InputType)
        ensures
            final(self)@ == old(self)@.with_pending(old(self)@.pending + input_type_script()),
    {
        let mut script: Vec<Task> = Vec::new();
        add_input_type(&mut script);
        self.queue(script);
    }

    /// Take a single reading of `chan`; the value is in `reading` once done.
    /// Only the single-ended mode is used.
    #[allow(unused_variables)]
    pub fn convert_one(&mut self, chan: u8, input_type: InputType)
        requires
            valid_channel(chan),
        ensures
            final(self)@ == old(self)@.with_pending(old(self)@.pending + convert_script(chan)),
    {
        let mut script: Vec<Task> = Vec::new();
        add_convert(&mut script, chan);
        self.queue(script);
    }

    /// This should only be invoked with the defined channels for the particular
    /// device. (See Pin/Channel mapping above)
    pub fn select_single_chan(&mut self, chan: u8)
        ensures
            final(self)@ == old(self)@.with_pending(old(self)@.pending + single_chan_script(chan)),
    {
        let mut script: Vec<Task> = Vec::new();
        add_single_chan(&mut script, chan);
        self.queue(script);
    }

    /// Note: only allowed when ADSTART = 0
    pub fn set_chan_smps(&mut self, chan: u8, smp: SampleTime)
        requires
            valid_channel(chan),
        ensures
            final(self)@ == old(self)@.with_pending(
                old(self)@.pending + chan_smps_script(chan, smp),
            ),
    {
        let mut script: Vec<Task> = Vec::new();
        add_chan_smps(&mut script, chan, smp);
        self.queue(script);
    }

    /// The one-shot read of a channel: a single-ended conversion of `chan`.
    pub fn read(&mut self, chan: u8)
        requires
            valid_channel(chan),
        ensures
            final(self)@ == old(self)@.with_pending(old(self)@.pending + convert_script(chan)),
    {
        self.convert_one(chan, InputType::SingleEnded);
    }

    /// The result of the last conversion.
    pub fn reading(&self) -> (r: Option<u16>)
        ensures
            r == self@.reading,
    {
        self.reading
    }

    /// The stored single-ended calibration factor.
    pub fn cal_single_ended(&self) -> (r: Option<u8>)
        ensures
            r == self@.cal_single_ended,
    {
        self.cal_single_ended
    }

    /// The stored differential calibration factor.
    pub fn cal_differential(&self) -> (r: Option<u8>)
        ensures
            r == self@.cal_differential,
    {
        self.cal_differential
    }

    /// The operation mode.
    pub fn operation_mode(&self) -> (r: OperationMode)
        ensures
            r == self@.operation_mode,
    {
        self.operation_mode
    }

    /// The clock mode the ADC was set up with.
    pub fn clock_mode(&self) -> (r: ClockMode)
        ensures
            r == self@.ckmode,
    {
        self.ckmode
    }

    /// The family the driver was set up for.
    pub fn family(&self) -> (r: Family)
        ensures
            r == self@.family,
    {
        self.family
    }

    /// Whether no step is pending.
    pub fn is_done(&self) -> (r: bool)
        ensures
            r == (self@.pending.len() == 0),
    {
        self.tasks.len() == 0
    }

    /// Runs one step of the pending procedures. `input` is the value returned by
    /// the last `Action::Read`; other steps ignore it.
    pub fn step(&mut self, input: u32) -> (act: Action)
        ensures
            final(self)@ == old(self)@.next(input).0,
            act == old(self)@.next(input).1,
    {
        match self.tasks.pop_front() {
            None => Action::Finish,
            Some(task) => match task {
                Task::Write { reg, update } => Action::Modify { reg, update },
                Task::Delay { cycles } => Action::Delay { cycles },
                Task::Read(probe) => {
                    self.tasks.push_front(Task::Decide(probe));
                    Action::Read { reg: probe.register() }
                },
                Task::Decide(probe) => {
                    self.decide(probe, input);
                    Action::Idle
                },
                Task::RequireClock => {
                    if self.clock_ok {
                        Action::Idle
                    } else {
                        self.tasks.clear();
                        Action::Fault
                    }
                },
                Task::MarkOneShot => {
                    self.operation_mode = OperationMode::OneShot;
                    Action::Idle
                },
                Task::InjectStored => {
                    let mut next: Vec<Task> = Vec::new();
                    add_stored_cal(&mut next, self.cal_single_ended, self.cal_differential);
                    self.run_first(next);
                    Action::Idle
                },
            },
        }
    }
}

} // verus!
