# stm32_adc

Driver logic for the ADC of STM32 F3 and L4/L5 parts, verified with Verus.

The driver (`src/adc.rs`) does not touch the hardware. Each procedure of the
reference manual (clock enable, regulator start, calibration, enable, disable,
abort, one-shot setup, single conversion, calibration injection) is queued as a
list of steps (`src/script.rs`); `Adc::step` hands out one register read, one
read-modify-write or one busy-wait at a time, and takes back the value of each
read. `app/` performs these actions on the registers and implements the
embedded-hal `OneShot` and `Channel` traits.

- `src/bits.rs`: register fields and read-modify-write updates, with their laws.
- `src/regs.rs`: registers, field positions, the F3/L4 differences.
- `src/config.rs`: sampling time, input type, operation mode, clock mode, alignment.
- `src/sampling.rs`: where each channel's sampling time lives.
- `src/AdcChannel.rs`: the channel types `C1` to `C20`.
- `src/script.rs`: the procedures as data.
- `src/adc.rs`: the driver state and its step function.
- `src/laws.rs`: what the driver does against given register contents, and the
  properties every step keeps.
