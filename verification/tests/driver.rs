use stm32_adc::adc::Adc;
use stm32_adc::bits::Update;
use stm32_adc::config::{Align, ClockMode, InputType, OperationMode, SampleTime};
use stm32_adc::regs::{
    Family, Reg, CR_ADCAL, CR_ADCALDIF, CR_ADDIS, CR_ADEN, CR_ADSTART, CR_ADSTP, CR_ADVREGEN,
    CR_DEEPPWD, CR_JADSTART, CR_JADSTP, ISR_ADRDY, ISR_EOS, ISR_OVR, RCC_F3_ADC12EN,
    RCC_F3_ADC34EN, RCC_L4_ADCEN,
};
use stm32_adc::script::Action;

fn index(reg: Reg) -> usize {
    match reg {
        Reg::Cr => 0,
        Reg::Isr => 1,
        Reg::Cfgr => 2,
        Reg::Sqr1 => 3,
        Reg::Smpr1 => 4,
        Reg::Smpr2 => 5,
        Reg::Calfact => 6,
        Reg::Dr => 7,
        Reg::CommonCcr => 8,
        Reg::RccEnable => 9,
    }
}

/// A small model of the peripheral: it answers reads and reacts to writes the way the
/// reference manual describes, instantly.
struct Sim {
    regs: [u32; 10],
    sample: u32,
    factors: u32,
    /// Conversions still running when an abort starts.
    busy: bool,
}

impl Sim {
    fn new() -> Sim {
        Sim { regs: [0; 10], sample: 0x0001_0abc, factors: 0x0015_002a, busy: false }
    }

    fn get(&self, reg: Reg) -> u32 {
        self.regs[index(reg)]
    }

    fn set(&mut self, reg: Reg, v: u32) {
        self.regs[index(reg)] = v;
    }

    fn read(&mut self, reg: Reg) -> u32 {
        let v = self.get(reg);
        if reg == Reg::Cr && self.busy {
            self.set(Reg::Cr, v | CR_ADSTART | CR_JADSTART);
            return v | CR_ADSTART | CR_JADSTART;
        }
        v
    }

    fn write(&mut self, reg: Reg, v: u32) {
        match reg {
            Reg::Isr => {
                let old = self.get(Reg::Isr);
                self.set(Reg::Isr, old & !v);
            },
            Reg::Cr => {
                let mut cr = v;
                if cr & (CR_ADSTP | CR_JADSTP) != 0 {
                    self.busy = false;
                    cr &= !(CR_ADSTP | CR_JADSTP | CR_ADSTART | CR_JADSTART);
                }
                if cr & CR_ADDIS != 0 {
                    cr &= !(CR_ADDIS | CR_ADEN);
                }
                if cr & CR_ADCAL != 0 {
                    cr &= !CR_ADCAL;
                    self.set(Reg::Calfact, self.factors);
                }
                if cr & CR_ADEN != 0 && self.get(Reg::Cr) & CR_ADEN == 0 {
                    let isr = self.get(Reg::Isr);
                    self.set(Reg::Isr, isr | ISR_ADRDY);
                }
                if cr & CR_ADSTART != 0 {
                    cr &= !CR_ADSTART;
                    let isr = self.get(Reg::Isr);
                    self.set(Reg::Isr, isr | ISR_EOS);
                    self.set(Reg::Dr, self.sample);
                }
                self.set(Reg::Cr, cr);
            },
            _ => self.set(reg, v),
        }
    }
}

/// Runs the driver against the model until it finishes; returns the actions.
fn run(adc: &mut Adc, sim: &mut Sim) -> Vec<Action> {
    let mut acts = Vec::new();
    let mut input = 0u32;
    for _ in 0..10_000 {
        let act = adc.step(input);
        acts.push(act);
        match act {
            Action::Read { reg } => input = sim.read(reg),
            Action::Modify { reg, update } => {
                let old = sim.get(reg);
                sim.write(reg, update.applied(old));
            },
            Action::Delay { .. } | Action::Idle => {},
            Action::Finish | Action::Fault => return acts,
        }
    }
    panic!("the driver did not finish");
}

fn writes(acts: &[Action]) -> Vec<(Reg, Update)> {
    acts.iter()
        .filter_map(|a| match a {
            Action::Modify { reg, update } => Some((*reg, *update)),
            _ => None,
        })
        .collect()
}

fn position(acts: &[Action], reg: Reg, bit: u32) -> usize {
    acts.iter()
        .position(|a| match a {
            Action::Modify { reg: r, update } => *r == reg && update.bits & bit != 0,
            _ => false,
        })
        .expect("write not found")
}

#[test]
fn init_l4_enables_clock_calibrates_and_enables() {
    let mut sim = Sim::new();
    let mut adc = Adc::new_adc1_unchecked(Family::L4, ClockMode::SyncDiv2, 8_000_000);
    let acts = run(&mut adc, &mut sim);
    assert_eq!(*acts.last().unwrap(), Action::Finish);
    assert!(adc.is_done());
    assert_eq!(sim.get(Reg::RccEnable), RCC_L4_ADCEN);
    assert_eq!((sim.get(Reg::CommonCcr) >> 16) & 3, 0b10);
    assert_eq!(adc.cal_single_ended(), Some(0x2a));
    assert_eq!(adc.cal_differential(), None);
    assert_eq!(adc.operation_mode(), OperationMode::OneShot);
    let cr = sim.get(Reg::Cr);
    assert!(cr & CR_ADEN != 0);
    assert!(cr & CR_ADVREGEN != 0);
    assert!(cr & CR_DEEPPWD == 0);
    // One-shot mode: CONT and OVRMOD clear, a sequence of one conversion.
    assert_eq!(sim.get(Reg::Cfgr) & ((1 << 13) | (1 << 12)), 0);
    assert_eq!(sim.get(Reg::Sqr1) & 0xf, 0);
    // The regulator waits 2 cycles at 8 MHz; the calibration settles 2 * 4 cycles.
    let delays: Vec<u32> = acts
        .iter()
        .filter_map(|a| match a {
            Action::Delay { cycles } => Some(*cycles),
            _ => None,
        })
        .collect();
    assert_eq!(delays, vec![2, 8]);
    // ADDIS before ADCAL, ADCAL before ADEN.
    let addis = position(&acts, Reg::Cr, CR_ADDIS);
    let adcal = position(&acts, Reg::Cr, CR_ADCAL);
    let aden = position(&acts, Reg::Cr, CR_ADEN);
    assert!(addis < adcal);
    assert!(adcal < aden);
}

#[test]
fn init_f3_uses_two_bit_regulator_field() {
    let mut sim = Sim::new();
    sim.set(Reg::Cr, 0x2000_0000);
    let mut adc = Adc::new_adc3_unchecked(Family::F3, ClockMode::SyncDiv4, 1_000_000);
    let acts = run(&mut adc, &mut sim);
    assert_eq!(*acts.last().unwrap(), Action::Finish);
    assert_eq!(sim.get(Reg::RccEnable), RCC_F3_ADC34EN);
    assert_eq!((sim.get(Reg::CommonCcr) >> 16) & 3, 0b11);
    assert_eq!((sim.get(Reg::Cr) >> 28) & 3, 0b01);
    let w = writes(&acts);
    assert_eq!(w[2], (Reg::Cfgr, Update { mask: 1 << 5, bits: 0 }));
    assert_eq!(w[3], (Reg::Cr, Update { mask: 0x3000_0000, bits: 0 }));
    assert_eq!(w[4], (Reg::Cr, Update { mask: 0x3000_0000, bits: 0x1000_0000 }));
    let delays: Vec<u32> = acts
        .iter()
        .filter_map(|a| match a {
            Action::Delay { cycles } => Some(*cycles),
            _ => None,
        })
        .collect();
    assert_eq!(delays, vec![10, 12]);
}

#[test]
fn init_fails_when_clock_on_with_other_mode() {
    let mut sim = Sim::new();
    sim.set(Reg::RccEnable, RCC_F3_ADC12EN);
    sim.set(Reg::CommonCcr, 0b01 << 16);
    let mut adc = Adc::new_adc1_unchecked(Family::F3, ClockMode::SyncDiv2, 8_000_000);
    let acts = run(&mut adc, &mut sim);
    assert_eq!(
        acts,
        vec![
            Action::Read { reg: Reg::RccEnable },
            Action::Idle,
            Action::Read { reg: Reg::CommonCcr },
            Action::Idle,
            Action::Fault,
        ]
    );
    assert!(adc.is_done());
}

#[test]
fn init_goes_on_when_clock_on_with_same_mode() {
    let mut sim = Sim::new();
    sim.set(Reg::RccEnable, RCC_F3_ADC12EN);
    sim.set(Reg::CommonCcr, 0b10 << 16);
    let mut adc = Adc::new_adc2_unchecked(Family::F3, ClockMode::SyncDiv2, 8_000_000);
    let acts = run(&mut adc, &mut sim);
    assert_eq!(*acts.last().unwrap(), Action::Finish);
    // Neither the RCC nor the CCR is written.
    assert!(writes(&acts).iter().all(|(r, _)| *r != Reg::RccEnable && *r != Reg::CommonCcr));
    assert_eq!(adc.cal_single_ended(), Some(0x2a));
}

#[test]
fn async_clock_mode_settles_zero_cycles() {
    let mut sim = Sim::new();
    let mut adc = Adc::new_adc4_unchecked(Family::F3, ClockMode::ASYNC, 8_000_000);
    let acts = run(&mut adc, &mut sim);
    assert!(acts.contains(&Action::Delay { cycles: 0 }));
    assert_eq!(adc.clock_mode(), ClockMode::ASYNC);
    assert_eq!(adc.family(), Family::F3);
}

fn ready_adc(family: Family) -> (Adc, Sim) {
    let mut sim = Sim::new();
    let mut adc = Adc::new_adc1_unchecked(family, ClockMode::SyncDiv2, 8_000_000);
    let acts = run(&mut adc, &mut sim);
    assert_eq!(*acts.last().unwrap(), Action::Finish);
    (adc, sim)
}

#[test]
fn read_returns_low_half_of_data_register() {
    let (mut adc, mut sim) = ready_adc(Family::L4);
    sim.sample = 0x0001_0abc;
    adc.read(5);
    let acts = run(&mut adc, &mut sim);
    assert_eq!(adc.reading(), Some(0x0abc));
    assert_eq!(
        acts,
        vec![
            Action::Modify { reg: Reg::Smpr1, update: Update { mask: 7 << 15, bits: 0 } },
            Action::Modify { reg: Reg::Sqr1, update: Update { mask: 0x1f << 6, bits: 5 << 6 } },
            Action::Modify { reg: Reg::Cr, update: Update { mask: CR_ADSTART, bits: CR_ADSTART } },
            Action::Read { reg: Reg::Isr },
            Action::Idle,
            Action::Modify { reg: Reg::Isr, update: Update { mask: ISR_EOS, bits: ISR_EOS } },
            Action::Read { reg: Reg::Dr },
            Action::Idle,
            Action::Finish,
        ]
    );
}

#[test]
fn convert_channel_eleven_uses_smp10_field() {
    let (mut adc, mut sim) = ready_adc(Family::L4);
    sim.set(Reg::Smpr2, 0x07ff_ffff);
    sim.sample = 1234;
    adc.convert_one(11, InputType::Differential);
    run(&mut adc, &mut sim);
    assert_eq!(sim.get(Reg::Smpr2), 0x07ff_fff8);
    assert_eq!((sim.get(Reg::Sqr1) >> 6) & 0x1f, 11);
    assert_eq!(adc.reading(), Some(1234));
}

#[test]
fn set_chan_smps_writes_code() {
    let (mut adc, mut sim) = ready_adc(Family::L4);
    adc.set_chan_smps(18, SampleTime::T601);
    adc.set_chan_smps(2, SampleTime::T19);
    run(&mut adc, &mut sim);
    assert_eq!((sim.get(Reg::Smpr2) >> 24) & 7, 0b111);
    assert_eq!((sim.get(Reg::Smpr1) >> 6) & 7, 0b100);
}

#[test]
fn abort_when_idle_writes_nothing() {
    let (mut adc, mut sim) = ready_adc(Family::L4);
    adc.abort_conversions();
    let acts = run(&mut adc, &mut sim);
    assert!(writes(&acts).is_empty());
    assert_eq!(acts.len(), 9);
}

#[test]
fn abort_stops_ongoing_conversions() {
    let (mut adc, mut sim) = ready_adc(Family::L4);
    sim.busy = true;
    adc.abort_conversions();
    let acts = run(&mut adc, &mut sim);
    assert_eq!(
        writes(&acts),
        vec![(Reg::Cr, Update { mask: CR_ADSTP | CR_JADSTP, bits: CR_ADSTP | CR_JADSTP })]
    );
    assert_eq!(sim.get(Reg::Cr) & (CR_ADSTART | CR_JADSTART), 0);
}

#[test]
fn set_input_type_cycles_enabled_adc() {
    let (mut adc, mut sim) = ready_adc(Family::L4);
    adc.set_input_type(3, InputType::Differential);
    let acts = run(&mut adc, &mut sim);
    let addis = position(&acts, Reg::Cr, CR_ADDIS);
    let aden = position(&acts, Reg::Cr, CR_ADEN);
    assert!(addis < aden);
    assert!(sim.get(Reg::Cr) & CR_ADEN != 0);
}

#[test]
fn set_input_type_leaves_disabled_adc() {
    let mut sim = Sim::new();
    let mut adc = Adc::new_adc1_unchecked(Family::L4, ClockMode::SyncDiv2, 8_000_000);
    run(&mut adc, &mut sim);
    adc.disable();
    run(&mut adc, &mut sim);
    assert_eq!(sim.get(Reg::Cr) & CR_ADEN, 0);
    adc.set_input_type(3, InputType::SingleEnded);
    let acts = run(&mut adc, &mut sim);
    assert_eq!(acts, vec![Action::Read { reg: Reg::Cr }, Action::Idle, Action::Finish]);
}

#[test]
fn differential_calibration_keeps_its_factor() {
    let (mut adc, mut sim) = ready_adc(Family::L4);
    adc.calibrate(InputType::Differential, 8_000_000);
    let acts = run(&mut adc, &mut sim);
    assert!(writes(&acts).contains(&(
        Reg::Cr,
        Update { mask: CR_ADCALDIF | CR_ADCAL, bits: CR_ADCALDIF | CR_ADCAL }
    )));
    assert_eq!(adc.cal_differential(), Some(0x15));
    assert_eq!(adc.cal_single_ended(), Some(0x2a));
}

#[test]
fn inject_writes_stored_factors() {
    let (mut adc, mut sim) = ready_adc(Family::L4);
    adc.calibrate(InputType::Differential, 8_000_000);
    run(&mut adc, &mut sim);
    sim.set(Reg::Calfact, 0);
    adc.inject_calibration();
    let acts = run(&mut adc, &mut sim);
    let cal: Vec<(Reg, Update)> =
        writes(&acts).into_iter().filter(|(r, _)| *r == Reg::Calfact).collect();
    assert_eq!(
        cal,
        vec![
            (Reg::Calfact, Update { mask: 0x7f, bits: 0x2a }),
            (Reg::Calfact, Update { mask: 0x7f << 16, bits: 0x15 << 16 }),
        ]
    );
    assert_eq!(sim.get(Reg::Calfact), 0x0015_002a);
}

#[test]
fn inject_enables_disabled_adc_first() {
    let (mut adc, mut sim) = ready_adc(Family::L4);
    adc.disable();
    run(&mut adc, &mut sim);
    adc.inject_calibration();
    let acts = run(&mut adc, &mut sim);
    let aden = position(&acts, Reg::Cr, CR_ADEN);
    let cal = acts
        .iter()
        .position(|a| matches!(a, Action::Modify { reg: Reg::Calfact, .. }))
        .unwrap();
    assert!(aden < cal);
}

#[test]
fn regulator_off_writes() {
    let mut l4 = Adc::new_adc1_unchecked(Family::L4, ClockMode::SyncDiv2, 8_000_000);
    let mut sim = Sim::new();
    run(&mut l4, &mut sim);
    l4.advregen_disable();
    let acts = run(&mut l4, &mut sim);
    assert_eq!(writes(&acts), vec![(Reg::Cr, Update { mask: CR_DEEPPWD, bits: CR_DEEPPWD })]);

    let mut f3 = Adc::new_adc1_unchecked(Family::F3, ClockMode::SyncDiv2, 8_000_000);
    let mut sim = Sim::new();
    run(&mut f3, &mut sim);
    f3.advregen_disable();
    let acts = run(&mut f3, &mut sim);
    assert_eq!(
        writes(&acts),
        vec![
            (Reg::Cr, Update { mask: 0x3000_0000, bits: 0 }),
            (Reg::Cr, Update { mask: 0x3000_0000, bits: 0x2000_0000 }),
        ]
    );
    assert_eq!((sim.get(Reg::Cr) >> 28) & 3, 0b10);
}

#[test]
fn regulator_on_and_wait() {
    let (mut adc, mut sim) = ready_adc(Family::L4);
    adc.advregen_enable(2_000_000);
    adc.wait_advregen_startup(500_000);
    let acts = run(&mut adc, &mut sim);
    assert_eq!(
        acts,
        vec![
            Action::Modify { reg: Reg::Cr, update: Update { mask: CR_DEEPPWD, bits: 0 } },
            Action::Modify {
                reg: Reg::Cr,
                update: Update { mask: CR_ADVREGEN, bits: CR_ADVREGEN },
            },
            Action::Delay { cycles: 5 },
            Action::Delay { cycles: 20 },
            Action::Finish,
        ]
    );
}

#[test]
fn sequence_length_and_alignment() {
    let (mut adc, mut sim) = ready_adc(Family::L4);
    adc.set_sequence_len(16);
    adc.set_align(Align::Left);
    adc.select_single_chan(9);
    run(&mut adc, &mut sim);
    assert_eq!(sim.get(Reg::Sqr1) & 0xf, 15);
    assert_eq!((sim.get(Reg::Sqr1) >> 6) & 0x1f, 9);
    assert!(sim.get(Reg::Cfgr) & (1 << 5) != 0);
    adc.set_align(Align::Right);
    run(&mut adc, &mut sim);
    assert_eq!(sim.get(Reg::Cfgr) & (1 << 5), 0);
}

#[test]
fn setup_oneshot_writes() {
    let (mut adc, mut sim) = ready_adc(Family::L4);
    sim.set(Reg::Cfgr, 0xffff_ffff);
    sim.set(Reg::Sqr1, 0xf);
    sim.set(Reg::Isr, ISR_OVR);
    adc.setup_oneshot();
    let acts = run(&mut adc, &mut sim);
    assert!(writes(&acts).contains(&(Reg::Isr, Update { mask: ISR_OVR, bits: 0 })));
    assert!(writes(&acts).contains(&(Reg::Cr, Update { mask: CR_ADSTP, bits: CR_ADSTP })));
    assert_eq!(sim.get(Reg::Cfgr), 0xffff_cfff);
    assert_eq!(sim.get(Reg::Sqr1), 0);
    assert_eq!(adc.operation_mode(), OperationMode::OneShot);
}

#[test]
fn enable_clock_alone_reports_through_steps() {
    let mut sim = Sim::new();
    let mut adc = Adc::new_adc1_unchecked(Family::L4, ClockMode::SyncDiv1, 8_000_000);
    run(&mut adc, &mut sim);
    adc.enable_clock();
    let acts = run(&mut adc, &mut sim);
    // The clock is on with SyncDiv1: nothing is written.
    assert!(writes(&acts).is_empty());
}

#[test]
fn enable_polls_until_ready() {
    let (mut adc, mut sim) = ready_adc(Family::L4);
    adc.disable();
    run(&mut adc, &mut sim);
    adc.enable();
    // Drive by hand: ADRDY reads clear twice before it reads set.
    let mut input = 0;
    let mut reads = 0;
    loop {
        let act = adc.step(input);
        match act {
            Action::Read { reg: Reg::Isr } => {
                reads += 1;
                input = if reads < 3 { 0 } else { ISR_ADRDY };
            },
            Action::Read { reg } => input = sim.read(reg),
            Action::Modify { reg, update } => {
                let old = sim.get(reg);
                sim.write(reg, update.applied(old));
            },
            Action::Finish => break,
            _ => {},
        }
    }
    assert_eq!(reads, 3);
}

#[test]
fn every_write_stays_inside_its_mask() {
    for family in [Family::F3, Family::L4] {
        let mut sim = Sim::new();
        sim.busy = true;
        let mut adc = Adc::new_adc1_unchecked(family, ClockMode::SyncDiv4, 8_000_000);
        let mut acts = run(&mut adc, &mut sim);
        adc.calibrate(InputType::Differential, 8_000_000);
        adc.inject_calibration();
        adc.set_input_type(1, InputType::SingleEnded);
        adc.read(18);
        adc.advregen_disable();
        acts.extend(run(&mut adc, &mut sim));
        for (_, u) in writes(&acts) {
            assert_eq!(u.bits & !u.mask, 0);
        }
    }
}
