//! The SPARK MAX protocol layer with the full set of status frames and setpoint kinds.

pub mod can;
pub mod motor;
