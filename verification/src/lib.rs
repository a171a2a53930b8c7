//! `confetti`: the logic of a framework for building FRC robots, verified with Verus.
//!
//! The library decides and computes; the program around it talks to the hardware and the
//! network. It holds:
//! - `can` and `confetti::can`: two frame layouts of the REV SPARK MAX CAN protocol, their
//!   arbitration ids, payload layouts and status decoding;
//! - `confetti::motor`: the state of a SPARK MAX motor controller and its watchdog decision;
//! - `enums` and `robot`: robot modes, the `Robot` trait and the robot loop's decisions;
//! - `deploy`, `setup` and `toolchain`: what the command-line tool computes to build, deploy
//!   and install the roboRIO toolchain;
//! - `toml_value` and `json_value`: the TOML and JSON documents that `deploy`, `setup` and
//!   `toolchain` read and edit, parsed and written by the `toml` and `serde_json` crates;
//! - `bits` and `text`: payload bit fields and the string helpers that the rest uses.

use vstd::prelude::*;

pub mod bits;
pub mod can;
pub mod confetti;
pub mod deploy;
pub mod enums;
pub mod json_value;
pub mod robot;
pub mod setup;
pub mod text;
pub mod toml_value;
pub mod toolchain;

verus! {

/// Adds two unsigned integers.
pub fn add(left: u64, right: u64) -> (sum: u64)
    requires
        left + right <= u64::MAX,
    ensures
        sum == left + right,
{
    left + right
}

} // verus!
