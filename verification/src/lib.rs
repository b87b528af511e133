//! Decision logic of a network boot loader for a firmware boot environment.
//!
//! The loader acquires a network configuration, fetches a kernel and an initial
//! ramdisk, stages both in page-aligned physical memory, registers the ramdisk
//! with the firmware and chain-loads the kernel. Every rule of that sequence is
//! stated and proved here; the firmware calls themselves are made by the
//! program that drives [`sequence::BootSequence`].

pub mod acquire;
pub mod fetch;
pub mod invariants;
pub mod options;
pub mod record;
pub mod sequence;
pub mod stage;
pub mod status;
