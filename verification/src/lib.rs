//! Sans-I/O core of the driver for a chained ASIC hashing board behind an
//! FPGA I/O core.
//!
//! The crate holds every decision the driver takes and none of the I/O it
//! needs: board bring-up is a state machine that answers each completed
//! hardware action with the next one, and the work pipeline is a pair of
//! tasks of the same kind, which share the work registry and the mining
//! statistics. Whoever owns the pins, the voltage controller and the FIFOs
//! runs the loops.

pub mod baud;
pub mod command;
pub mod config;
pub mod error;
pub mod hchain_ctl;
pub mod init;
pub mod midstate;
pub mod registry;
pub mod solution_rx;
pub mod startup;
pub mod stats;
pub mod trace;
pub mod work_tx;

pub use error::ErrorKind;
pub use hchain_ctl::HChainCtl;
pub use midstate::MidstateCount;
