//! A verified model of a two-stage real-mode boot chain: the first stage
//! prepares the machine, asks the firmware to load the second stage from disk
//! and hands control over; firmware services are described as explicit calls
//! with a register-level contract.

pub mod packet;
pub mod firmware;
pub mod console;
pub mod machine;
pub mod layout;
pub mod stage_1;
pub mod stage_2;
