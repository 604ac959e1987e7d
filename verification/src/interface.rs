//! Framing of chip commands as ordered bus transactions.
//!
//! A transaction is the unit the bus executes atomically: the device-select
//! line stays asserted across all of its operations.  Every command is one
//! transaction of write and read phases; a command that takes an address
//! sends a four-byte header, the opcode followed by the 24-bit address most
//! significant byte first.  Addresses with a non-zero top byte are rejected
//! here, before anything reaches the bus.

use crate::io::FlashError;
use vstd::prelude::*;

verus! {

/// Largest address that fits the 24-bit address field of a command header.
pub const MAX_ADDRESS: u32 = 0x00FF_FFFF;

/// One phase of a bus transaction: bytes going out, or a count coming in.
#[derive(Debug, Clone, PartialEq, Eq)]
pub enum BusOp {
    /// Transmit these bytes.
    Write(Vec<u8>),
    /// Receive this many bytes.
    Read(usize),
}

impl BusOp {
    /// This phase transmits exactly the given bytes.
    pub open spec fn is_write_of(self, bytes: Seq<u8>) -> bool {
        self matches BusOp::Write(v) && v@ == bytes
    }

    /// This phase receives exactly the given number of bytes.
    pub open spec fn is_read_of(self, n: int) -> bool {
        self matches BusOp::Read(m) && m == n
    }
}

/// An ordered sequence of bus phases executed as one atomic exchange.
#[derive(Debug, Clone, PartialEq, Eq)]
pub struct Transaction {
    /// The phases, in bus order.
    pub ops: Vec<BusOp>,
}

/// The four-byte header of a command that takes an address: the opcode, then
/// the address bytes most significant first.
pub open spec fn spec_header(command: u8, address: u32) -> Seq<u8> {
    seq![
        command,
        ((address >> 16) & 0xFF) as u8,
        ((address >> 8) & 0xFF) as u8,
        (address & 0xFF) as u8,
    ]
}

/// A byte masked to its low eight bits fits in a `u8`.
proof fn lemma_low_byte_fits(x: u32)
    by (bit_vector)
    ensures
        x & 0xFF < 256,
{
}

/// For an in-range address the header bytes are exactly the shifted address
/// bytes, with nothing masked away.
pub proof fn lemma_header_bytes(command: u8, address: u32)
    requires
        address <= MAX_ADDRESS,
    ensures
        spec_header(command, address) =~= seq![
            command,
            (address >> 16) as u8,
            (address >> 8) as u8,
            address as u8,
        ],
{
    assert(((address >> 16) & 0xFF) as u8 == (address >> 16) as u8
        && ((address >> 8) & 0xFF) as u8 == (address >> 8) as u8
        && (address & 0xFF) as u8 == address as u8) by (bit_vector)
        requires
            address <= 0x00FF_FFFFu32,
    ;
}

/// Build the four-byte command header for an address already checked to be
/// in range.
pub fn encode_header(command: u8, address: u32) -> (r: Vec<u8>)
    ensures
        r@ == spec_header(command, address),
{
    proof {
        lemma_low_byte_fits(address >> 16);
        lemma_low_byte_fits(address >> 8);
        lemma_low_byte_fits(address);
    }
    let mut r: Vec<u8> = Vec::new();
    r.push(command);
    r.push(((address >> 16) & 0xFF) as u8);
    r.push(((address >> 8) & 0xFF) as u8);
    r.push((address & 0xFF) as u8);
    proof {
        assert(r@ =~= spec_header(command, address));
    }
    r
}

/// Command with address, then a payload read: one atomic exchange of the
/// four-byte header and the requested number of payload bytes.  An address
/// with a non-zero top byte is rejected before any bus activity.
pub fn read_from_address(command: u8, address: u32, read_len: usize) -> (r: Result<
    Transaction,
    FlashError,
>)
    ensures
        address <= MAX_ADDRESS ==> (r matches Ok(t) && t.ops@.len() == 2
            && t.ops@[0].is_write_of(spec_header(command, address))
            && t.ops@[1].is_read_of(read_len as int)),
        address > MAX_ADDRESS ==> r == Err::<Transaction, FlashError>(
            FlashError::AddressOutOfRange,
        ),
{
    if address > MAX_ADDRESS {
        return Err(FlashError::AddressOutOfRange);
    }
    let header = encode_header(command, address);
    let mut ops: Vec<BusOp> = Vec::new();
    ops.push(BusOp::Write(header));
    ops.push(BusOp::Read(read_len));
    Ok(Transaction { ops })
}

/// Command without address, then a payload read.
pub fn read_register(command: u8, read_len: usize) -> (r: Transaction)
    ensures
        r.ops@.len() == 2,
        r.ops@[0].is_write_of(seq![command]),
        r.ops@[1].is_read_of(read_len as int),
{
    let mut cmd: Vec<u8> = Vec::new();
    cmd.push(command);
    proof {
        assert(cmd@ =~= seq![command]);
    }
    let mut ops: Vec<BusOp> = Vec::new();
    ops.push(BusOp::Write(cmd));
    ops.push(BusOp::Read(read_len));
    Transaction { ops }
}

/// Command with address, then a payload write: header and payload in one
/// atomic exchange.  An address with a non-zero top byte is rejected before
/// any bus activity.
pub fn write_address(command: u8, address: u32, payload: &[u8]) -> (r: Result<
    Transaction,
    FlashError,
>)
    ensures
        address <= MAX_ADDRESS ==> (r matches Ok(t) && t.ops@.len() == 2
            && t.ops@[0].is_write_of(spec_header(command, address))
            && t.ops@[1].is_write_of(payload@)),
        address > MAX_ADDRESS ==> r == Err::<Transaction, FlashError>(
            FlashError::AddressOutOfRange,
        ),
{
    if address > MAX_ADDRESS {
        return Err(FlashError::AddressOutOfRange);
    }
    let header = encode_header(command, address);
    let mut ops: Vec<BusOp> = Vec::new();
    ops.push(BusOp::Write(header));
    ops.push(BusOp::Write(vstd::slice::slice_to_vec(payload)));
    Ok(Transaction { ops })
}

/// Command without address, then a payload write.
pub fn write_data(command: u8, payload: &[u8]) -> (r: Transaction)
    ensures
        r.ops@.len() == 2,
        r.ops@[0].is_write_of(seq![command]),
        r.ops@[1].is_write_of(payload@),
{
    let mut cmd: Vec<u8> = Vec::new();
    cmd.push(command);
    proof {
        assert(cmd@ =~= seq![command]);
    }
    let mut ops: Vec<BusOp> = Vec::new();
    ops.push(BusOp::Write(cmd));
    ops.push(BusOp::Write(vstd::slice::slice_to_vec(payload)));
    Transaction { ops }
}

/// A transaction of a bare opcode: one single-byte write phase.
pub fn single_command(command: u8) -> (r: Transaction)
    ensures
        r.ops@.len() == 1,
        r.ops@[0].is_write_of(seq![command]),
{
    let mut cmd: Vec<u8> = Vec::new();
    cmd.push(command);
    proof {
        assert(cmd@ =~= seq![command]);
    }
    let mut ops: Vec<BusOp> = Vec::new();
    ops.push(BusOp::Write(cmd));
    Transaction { ops }
}

} // verus!
