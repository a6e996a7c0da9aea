//! Verified core of a gamepad-driven robot-arm controller: the servo command
//! words and their wire encoding, the serial link's framing and message
//! reassembly, and the discrete decisions of the motion planner.
//!
//! Everything here works on integers, bytes and flags. The library performs
//! no input or output itself: the link hands out the bytes to transmit and
//! takes in the bytes that arrived, so every function is a plain computation
//! whose contract says exactly what it returns.

pub mod communication;
pub mod kinematics;
pub mod logging;
pub mod robot;
