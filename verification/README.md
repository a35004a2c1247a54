# tli493d

Driver for the TLI493D-A2B6 and TLI493D-W2BW magnetic sensors, verified with Verus.

The verified library (`src/`) does no I/O. It mirrors the configuration registers of the sensor
and decides, step by step, which bus transaction comes next, what to make of its outcome, and
whether a data frame is accepted. `app/` performs the transactions on an `embedded-hal-async` bus
and converts raw samples to millitesla and degrees Celsius.

- `src/bits.rs`: bits of a byte and how fields are replaced
- `src/register.rs`: the register map, parity bits and the data frame
- `src/types.rs`: settings, readings, flags and errors
- `src/variant.rs`: sensor variants and measurement shapes
- `src/protocol.rs`: the conversation between the driver and its host
- `src/driver.rs`: the driver and the state that its contracts speak of
- `src/laws.rs`: what holds of the driver as a whole
