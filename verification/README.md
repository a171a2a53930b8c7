# confetti

A framework for building FRC robots in Rust, with its logic verified by Verus.

- `src/` is the verified library: the SPARK MAX CAN frame layouts (arbitration ids, payload
  encoding, status decoding), the motor controller's state and watchdog decision, robot modes
  and the robot loop's decisions, and what the command-line tool computes (roboRIO addresses,
  build plans read from `Cargo.toml`, the `wpihal-sys` version read from `cargo metadata`,
  installer and toolchain selection (the archive chosen from the release list), and the cargo configuration that points at the toolchain).
  Payload bit fields are read and written with `bitvec`, toolchain archives are matched with
  `regex`, TOML and JSON are parsed and written with `toml` and `serde_json`; floating-point
  values cross the library as their IEEE-754 bit patterns.
- `app/` is the program around it: the HAL's CAN bus and driver station, the robot loop, motors
  and drivetrains (all `f32` arithmetic), and the `confetti` command-line tool (SSH, HTTP,
  archives, cargo).
- `tests/` runs the library on concrete frames, modes and addresses.
