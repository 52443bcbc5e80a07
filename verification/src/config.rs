//! Configuration values of the ADC and the codes they are written to the registers as.
use vstd::prelude::*;

verus! {

/// ADC sampling time
///
/// Each channel can be sampled with a different sample time.
/// There is always an overhead of 13 ADC clock cycles.
/// E.g. For Sampletime T_19 the total conversion time (in ADC clock cycles) is
/// 13 + 19 = 32 ADC Clock Cycles
#[derive(Clone, Copy, Debug, PartialEq, Eq, Structural)]
pub enum SampleTime {
    /// 1.5 ADC clock cycles
    T1,
    /// 2.5 ADC clock cycles
    T2,
    /// 4.5 ADC clock cycles
    T4,
    /// 7.5 ADC clock cycles
    T7,
    /// 19.5 ADC clock cycles
    T19,
    /// 61.5 ADC clock cycles
    T61,
    /// 181.5 ADC clock cycles
    T181,
    /// 601.5 ADC clock cycles
    T601,
}

impl SampleTime {
    /// The 3-bit code of the sampling time in the SMPx fields.
    pub open spec fn code(self) -> u8 {
        match self {
            SampleTime::T1 => 0b000,
            SampleTime::T2 => 0b001,
            SampleTime::T4 => 0b010,
            SampleTime::T7 => 0b011,
            SampleTime::T19 => 0b100,
            SampleTime::T61 => 0b101,
            SampleTime::T181 => 0b110,
            SampleTime::T601 => 0b111,
        }
    }

    /// The code written to the SMPx field.
    pub fn bits(self) -> (r: u8)
        ensures
            r == self.code(),
    {
        match self {
            SampleTime::T1 => 0b000,
            SampleTime::T2 => 0b001,
            SampleTime::T4 => 0b010,
            SampleTime::T7 => 0b011,
            SampleTime::T19 => 0b100,
            SampleTime::T61 => 0b101,
            SampleTime::T181 => 0b110,
            SampleTime::T601 => 0b111,
        }
    }
}

impl Default for SampleTime {
    /// T_1 is also the reset value.
    fn default() -> (r: Self)
        ensures
            r == SampleTime::T1,
    {
        SampleTime::T1
    }
}

/// Select single-ended, or differential inputs. Sets bits in the ADC[x]_DIFSEL register.
#[derive(Clone, Copy, Debug, PartialEq, Eq, Structural)]
pub enum InputType {
    SingleEnded,
    Differential,
}

impl InputType {
    /// The code of the input type: 0 for single-ended, 1 for differential.
    pub open spec fn code(self) -> u8 {
        match self {
            InputType::SingleEnded => 0,
            InputType::Differential => 1,
        }
    }

    /// The code of the input type.
    pub fn bits(self) -> (r: u8)
        ensures
            r == self.code(),
    {
        match self {
            InputType::SingleEnded => 0,
            InputType::Differential => 1,
        }
    }
}

/// ADC operation mode
#[derive(Clone, Copy, Debug, PartialEq, Eq, Structural)]
pub enum OperationMode {
    /// OneShot Mode
    OneShot,
    Continuous,
}

impl OperationMode {
    /// The code of the operation mode: 0 for one-shot, 1 for continuous.
    pub open spec fn code(self) -> u8 {
        match self {
            OperationMode::OneShot => 0,
            OperationMode::Continuous => 1,
        }
    }

    /// The code of the operation mode.
    pub fn bits(self) -> (r: u8)
        ensures
            r == self.code(),
    {
        match self {
            OperationMode::OneShot => 0,
            OperationMode::Continuous => 1,
        }
    }
}

/// ADC Clock mode
#[derive(Clone, Copy, Debug, PartialEq, Eq, Structural)]
pub enum ClockMode {
    /// Use Kernel Clock adc_ker_ck_input divided by PRESC. Asynchronous to AHB clock
    ASYNC,
    /// Use AHB clock rcc_hclk3. In this case rcc_hclk must equal sys_d1cpre_ck
    SyncDiv1,
    /// Use AHB clock rcc_hclk3 divided by 2
    SyncDiv2,
    /// Use AHB clock rcc_hclk3 divided by 4
    SyncDiv4,
}

impl ClockMode {
    /// The 2-bit code of the clock mode in the CKMODE field.
    pub open spec fn code(self) -> u8 {
        match self {
            ClockMode::ASYNC => 0b00,
            ClockMode::SyncDiv1 => 0b01,
            ClockMode::SyncDiv2 => 0b10,
            ClockMode::SyncDiv4 => 0b11,
        }
    }

    /// The code written to the CKMODE field.
    pub fn bits(self) -> (r: u8)
        ensures
            r == self.code(),
    {
        match self {
            ClockMode::ASYNC => 0b00,
            ClockMode::SyncDiv1 => 0b01,
            ClockMode::SyncDiv2 => 0b10,
            ClockMode::SyncDiv4 => 0b11,
        }
    }
}

impl Default for ClockMode {
    fn default() -> (r: Self)
        ensures
            r == ClockMode::SyncDiv2,
    {
        Self::SyncDiv2
    }
}

/// ADC data register alignment
#[derive(Clone, Copy, Debug, PartialEq, Eq, Structural)]
pub enum Align {
    /// Right alignment of output data
    Right,
    /// Left alignment of output data
    Left,
}

impl Align {
    /// The code of the alignment: 0 for right, 1 for left.
    pub open spec fn code(self) -> u8 {
        match self {
            Align::Right => 0,
            Align::Left => 1,
        }
    }

    /// The code of the alignment.
    pub fn bits(self) -> (r: u8)
        ensures
            r == self.code(),
    {
        match self {
            Align::Right => 0,
            Align::Left => 1,
        }
    }
}

impl Default for Align {
    fn default() -> (r: Self)
        ensures
            r == Align::Right,
    {
        Align::Right
    }
}

/// Each sampling time has its own code, and every code fits the 3-bit SMPx field.
pub proof fn lemma_sample_time_codes(a: SampleTime, b: SampleTime)
    ensures
        a.code() < 8,
        a.code() == b.code() <==> a == b,
{
}

/// Each clock mode has its own code, and every code fits the 2-bit CKMODE field.
pub proof fn lemma_clock_mode_codes(a: ClockMode, b: ClockMode)
    ensures
        a.code() < 4,
        a.code() == b.code() <==> a == b,
{
}

} // verus!
