//! Flash loader logic for the HiSilicon WS63 (Hi3863) on-chip SFC NOR flash.
//!
//! Every flash operation is a [`bus::Routine`]: a small state machine without a
//! heap that names one bus operation at a time and is resumed with the reply. The
//! program around the library performs the operation on the real registers.

pub mod algo;
pub mod board;
pub mod bus;
pub mod effects;
pub mod error;
pub mod laws;
pub mod nor;
pub mod plan;
pub mod safety;
pub mod sfc;
pub mod trace;
