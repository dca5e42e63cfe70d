# bmi323

A driver for the Bosch BMI323 inertial measurement unit, verified with Verus.

`src/` is the verified library. It holds everything the driver decides:

- `types`, `config`, `interrupt`, `motion`: the register field encodings,
  the sensor, interrupt and motion-detector configurations with their
  builders, and the words they are written as (with proofs that each
  configuration reads back from its register value);
- `wire`: little-endian words and the byte frames sent on the bus;
- `sensor`: raw samples, the FIFO configuration and the decoding of FIFO
  frames;
- `transfer`, `jobs`, `device`: the driver state and its operations. Each
  operation is a small state machine: it names the next bus transfer
  (`Command`), and the host resumes it with the bytes that transfer read,
  until it is done. Termination of the polling loops and the effect of each
  step are proved.

`app/` performs the transfers on `embedded-hal` I2C and SPI buses and delays
(`Blocking` runs each operation to its end), and holds the readings in
physical units, which are floating point.
