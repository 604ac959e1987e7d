//! Driver core for a W25Q serial NOR flash chip.
//!
//! The chip is a linear byte store of `TOTAL_SIZE` bytes, programmed in
//! 256-byte pages and erased in 4096-byte sectors.  Every chip command is a
//! one-byte opcode, optionally followed by a 24-bit address and a payload,
//! exchanged over a half-duplex serial bus as one ordered transaction.
//!
//! This crate holds the command protocol itself: framing commands as bus
//! transactions ([`interface`]), the opcode table ([`registers`]), the
//! status-register bit codecs ([`types`]), the write-enable/busy-poll
//! discipline ([`gate`]), page- and sector-aligned chunking of arbitrary
//! requests ([`mem`]), and a cursor-based buffered stream over the address
//! space ([`io`]).  The bus exchange itself and the millisecond delays are
//! left to the caller, who executes the transactions this crate builds.

pub mod gate;
pub mod interface;
pub mod io;
pub mod mem;
pub mod registers;
pub mod types;

use vstd::prelude::*;

verus! {

/// Bytes in one program page: a single program command must stay inside one.
pub const PAGE_SIZE: usize = 256;

/// Number of pages on the chip.
pub const PAGE_COUNT: usize = 65536;

/// Bytes in one erase sector, the smallest erasable unit.
pub const SECTOR_SIZE: usize = 4096;

/// Number of sectors on the chip.
pub const SECTOR_COUNT: usize = 4096;

/// Bytes in a 32 KiB erase block.
pub const BLOCK_SIZE_32: usize = 32768;

/// Bytes in a 64 KiB erase block.
pub const BLOCK_SIZE_64: usize = 65536;

/// Total capacity in bytes of the flat address space.
pub const TOTAL_SIZE: usize = SECTOR_COUNT * SECTOR_SIZE;

} // verus!
