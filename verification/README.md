# anx7625

Driver glue for the ANX7625 MIPI-to-DisplayPort bridge, whose C driver calls
back into Rust for I2C access, pins, delays and logging.

- `src/` — the verified library: the EDID data model (`display`), the
  C-string helpers behind the driver's logging and assertions (`c_compat`),
  the I2C register-access protocol as a step function (`i2c`), and the
  meaning of the driver's status codes (`driver`).
- `app/` — the program around it: the C driver's entry points and data
  layout, the callbacks that perform bus, pin and delay operations through
  `embedded-hal`, the logger, and a demonstration `main`.
- `tests/` — tests of the library on concrete values.
