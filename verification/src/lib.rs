//! Tools for DALI lighting control: addresses and command frames,
//! driver-side frame handling, and a simulated bus with control gear.
pub mod address;
pub mod bits;
pub mod send_flags;
pub mod driver;
mod random;
pub mod status;
pub mod device_type;
pub mod cmd_defs;
pub mod command_utils;
pub mod simulator;
pub mod address_set;
pub mod sequencer;
pub mod dali_msg;
pub mod text;
pub mod dgw521;
pub mod dali_rpi;
pub mod helvar;
pub mod pru;
pub mod fade;
pub mod dummy;
pub mod registry;
pub mod serial;
pub mod identification;
