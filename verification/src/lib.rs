//! Closed-loop thermal management core for an embedded platform, together
//! with the decode layer for the platform's power-sequencing (ignition)
//! controller and the kernel ABI records shared between kernel and tasks.
//!
//! The thermal core reads fused temperature telemetry, projects worst-case
//! temperatures when samples are missing, drives a fail-safe state machine
//! and computes a fan PWM command or a power-down directive.  All scalar
//! quantities are fixed-point integers: temperatures and margins are in
//! thousandths of a degree, controller gains in thousandths, and controller
//! outputs in millionths of a percent of duty cycle.

pub mod abi;
pub mod control;
pub mod ignition;
pub mod pid;
pub mod sensors;
pub mod units;
