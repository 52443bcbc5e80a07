//! Driver logic for the ADC (analog to digital converter) of STM32 F3 and L4 parts.
pub mod bits;
pub mod config;
pub mod regs;
pub mod sampling;
pub mod script;
pub mod adc;
pub mod laws;
#[allow(non_snake_case)]
pub mod AdcChannel;
