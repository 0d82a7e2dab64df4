//! Byte-addressable storage on a SPI-attached NOR flash device.
//!
//! The driver is verified against an executable model of the hardware it
//! drives: the flash array with its status register, the SPI controller's
//! command, status and data registers, the per-core caches, and the
//! core-stall unit. `device` holds that model; `protocol` implements the
//! four primitive flash operations (read, unlock, erase-sector, program)
//! over it, register write by register write; `coordinator` makes each
//! primitive atomic against interrupts and the second core; `storage`
//! turns byte-range requests into whole-sector read-modify-erase-write
//! cycles.

pub mod coordinator;
pub mod device;
pub mod protocol;
pub mod storage;

pub use storage::FlashStorage;
pub use storage::FlashStorageError;
