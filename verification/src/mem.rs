//! Address-space operations: every chip command as a ready-to-run
//! transaction, and the chunking that aligns arbitrary byte ranges to the
//! hardware's page and sector granularities.
//!
//! A mutating command comes as a [`GatedCommand`]: the mandatory
//! write-enable transaction followed by the command itself.  After running
//! one, the caller polls status register 1 until the busy bit clears
//! (see [`crate::gate`]).

use crate::interface::read_from_address;
use crate::interface::read_register;
use crate::interface::single_command;
use crate::interface::spec_header;
use crate::interface::write_address;
use crate::interface::encode_header;
use crate::interface::BusOp;
use crate::interface::Transaction;
use crate::interface::MAX_ADDRESS;
use crate::io::FlashError;
use crate::registers::Register;
use crate::types::SR;
use crate::PAGE_SIZE;
use crate::SECTOR_SIZE;
use crate::TOTAL_SIZE;
use vstd::arithmetic::div_mod::lemma_fundamental_div_mod;
use vstd::arithmetic::div_mod::lemma_mod_bound;
use vstd::prelude::*;

verus! {

/// Milliseconds to wait after a reset command before the chip answers again.
pub const RESET_SETTLE_MS: u32 = 30;

/// The smaller of two lengths.
pub fn min(a: usize, b: usize) -> (r: usize)
    ensures
        r == (if a < b {
            a as int
        } else {
            b as int
        }),
{
    if a < b {
        a
    } else {
        b
    }
}

/// A mutating command with its mandatory write-enable prefix.
#[derive(Debug, Clone, PartialEq, Eq)]
pub struct GatedCommand {
    /// The write-enable transaction, run first.
    pub enable: Transaction,
    /// The mutating command transaction, run second.
    pub command: Transaction,
}

/// The transaction consists of a single write phase of the given opcode.
pub open spec fn is_single(t: Transaction, opcode: u8) -> bool {
    t.ops@.len() == 1 && t.ops@[0].is_write_of(seq![opcode])
}

/// The transaction writes the four-byte header of `opcode` at `address` and
/// nothing more.
pub open spec fn is_address_command(t: Transaction, opcode: u8, address: u32) -> bool {
    t.ops@.len() == 1 && t.ops@[0].is_write_of(spec_header(opcode, address))
}

/// The transaction is the bare write-enable opcode.
pub open spec fn is_write_enable(t: Transaction) -> bool {
    is_single(t, Register::WRITE_ENABLE.spec_opcode())
}

/// Command with address and no payload, behind the write gate.
fn gated_address_command(command: u8, address: u32) -> (r: Result<GatedCommand, FlashError>)
    ensures
        address <= MAX_ADDRESS ==> (r matches Ok(g) && is_write_enable(g.enable)
            && is_address_command(g.command, command, address)),
        address > MAX_ADDRESS ==> r == Err::<GatedCommand, FlashError>(
            FlashError::AddressOutOfRange,
        ),
{
    if address > MAX_ADDRESS {
        return Err(FlashError::AddressOutOfRange);
    }
    let header = encode_header(command, address);
    let mut ops: Vec<BusOp> = Vec::new();
    ops.push(BusOp::Write(header));
    Ok(
        GatedCommand {
            enable: write_enable(),
            command: Transaction { ops },
        },
    )
}

/// The write-enable command, sent before every mutating operation.
pub fn write_enable() -> (t: Transaction)
    ensures
        is_write_enable(t),
{
    single_command(Register::WRITE_ENABLE.opcode())
}

/// The write-disable command.
pub fn write_disable() -> (t: Transaction)
    ensures
        is_single(t, Register::WRITE_DISABLE.spec_opcode()),
{
    single_command(Register::WRITE_DISABLE.opcode())
}

/// Erase the whole chip, behind the write gate.
pub fn chip_erase() -> (r: GatedCommand)
    ensures
        is_write_enable(r.enable),
        is_single(r.command, Register::CHIP_ERASE.spec_opcode()),
{
    GatedCommand { enable: write_enable(), command: single_command(Register::CHIP_ERASE.opcode()) }
}

/// Erase the 4 KiB sector at `address`, behind the write gate.
pub fn sector_erase(address: u32) -> (r: Result<GatedCommand, FlashError>)
    ensures
        address <= MAX_ADDRESS ==> (r matches Ok(g) && is_write_enable(g.enable)
            && is_address_command(g.command, Register::SECTOR_ERASE.spec_opcode(), address)),
        address > MAX_ADDRESS ==> r == Err::<GatedCommand, FlashError>(
            FlashError::AddressOutOfRange,
        ),
{
    gated_address_command(Register::SECTOR_ERASE.opcode(), address)
}

/// Erase the 32 KiB block at `address`, behind the write gate.
pub fn block_erase_32kb(address: u32) -> (r: Result<GatedCommand, FlashError>)
    ensures
        address <= MAX_ADDRESS ==> (r matches Ok(g) && is_write_enable(g.enable)
            && is_address_command(g.command, Register::BLOCK_ERASE_32KB.spec_opcode(), address)),
        address > MAX_ADDRESS ==> r == Err::<GatedCommand, FlashError>(
            FlashError::AddressOutOfRange,
        ),
{
    gated_address_command(Register::BLOCK_ERASE_32KB.opcode(), address)
}

/// Erase the 64 KiB block at `address`, behind the write gate.
pub fn block_erase_64kb(address: u32) -> (r: Result<GatedCommand, FlashError>)
    ensures
        address <= MAX_ADDRESS ==> (r matches Ok(g) && is_write_enable(g.enable)
            && is_address_command(g.command, Register::BLOCK_ERASE_64KB.spec_opcode(), address)),
        address > MAX_ADDRESS ==> r == Err::<GatedCommand, FlashError>(
            FlashError::AddressOutOfRange,
        ),
{
    gated_address_command(Register::BLOCK_ERASE_64KB.opcode(), address)
}

/// Program one page's worth of bytes at `address`, behind the write gate.
/// The payload must not cross a page boundary; arbitrary ranges are first
/// split with [`write_chunks`].
pub fn page_program(address: u32, data: &[u8]) -> (r: Result<GatedCommand, FlashError>)
    ensures
        address <= MAX_ADDRESS ==> (r matches Ok(g) && is_write_enable(g.enable)
            && g.command.ops@.len() == 2
            && g.command.ops@[0].is_write_of(
            spec_header(Register::PAGE_PROGRAM.spec_opcode(), address),
        ) && g.command.ops@[1].is_write_of(data@)),
        address > MAX_ADDRESS ==> r == Err::<GatedCommand, FlashError>(
            FlashError::AddressOutOfRange,
        ),
{
    match write_address(Register::PAGE_PROGRAM.opcode(), address, data) {
        Ok(t) => Ok(GatedCommand { enable: write_enable(), command: t }),
        Err(e) => Err(e),
    }
}

/// Stream `len` bytes starting at `address`.
pub fn read_data(address: u32, len: usize) -> (r: Result<Transaction, FlashError>)
    ensures
        address <= MAX_ADDRESS ==> (r matches Ok(t) && t.ops@.len() == 2 && t.ops@[0].is_write_of(
            spec_header(Register::READ_DATA.spec_opcode(), address),
        ) && t.ops@[1].is_read_of(len as int)),
        address > MAX_ADDRESS ==> r == Err::<Transaction, FlashError>(
            FlashError::AddressOutOfRange,
        ),
{
    read_from_address(Register::READ_DATA.opcode(), address, len)
}

/// Stream `len` bytes starting at `address` at full clock rate: the header
/// carries one dummy byte after the address.
pub fn fast_read(address: u32, len: usize) -> (r: Result<Transaction, FlashError>)
    ensures
        address <= MAX_ADDRESS ==> (r matches Ok(t) && t.ops@.len() == 2 && t.ops@[0].is_write_of(
            spec_header(Register::FAST_READ.spec_opcode(), address).push(0),
        ) && t.ops@[1].is_read_of(len as int)),
        address > MAX_ADDRESS ==> r == Err::<Transaction, FlashError>(
            FlashError::AddressOutOfRange,
        ),
{
    if address > MAX_ADDRESS {
        return Err(FlashError::AddressOutOfRange);
    }
    let mut header = encode_header(Register::FAST_READ.opcode(), address);
    header.push(0);
    let mut ops: Vec<BusOp> = Vec::new();
    ops.push(BusOp::Write(header));
    ops.push(BusOp::Read(len));
    Ok(Transaction { ops })
}

/// Read the three-byte JEDEC manufacturer and device identifier.
pub fn read_jedec_id() -> (t: Transaction)
    ensures
        t.ops@.len() == 2,
        t.ops@[0].is_write_of(seq![Register::JEDEC_ID.spec_opcode()]),
        t.ops@[1].is_read_of(3),
{
    read_register(Register::JEDEC_ID.opcode(), 3)
}

/// Read the eight-byte factory unique identifier: the opcode is followed by
/// four dummy bytes before the chip answers.
pub fn read_unique_id() -> (t: Transaction)
    ensures
        t.ops@.len() == 2,
        t.ops@[0].is_write_of(seq![Register::READ_UNIQUE_ID.spec_opcode(), 0u8, 0u8, 0u8, 0u8]),
        t.ops@[1].is_read_of(8),
{
    let mut cmd: Vec<u8> = Vec::new();
    cmd.push(Register::READ_UNIQUE_ID.opcode());
    cmd.push(0);
    cmd.push(0);
    cmd.push(0);
    cmd.push(0);
    proof {
        assert(cmd@ =~= seq![Register::READ_UNIQUE_ID.spec_opcode(), 0u8, 0u8, 0u8, 0u8]);
    }
    let mut ops: Vec<BusOp> = Vec::new();
    ops.push(BusOp::Write(cmd));
    ops.push(BusOp::Read(8));
    Transaction { ops }
}

/// A big-endian 32-bit word over four consecutive bytes of a sequence.
pub open spec fn spec_word_be(s: Seq<u8>, i: int) -> u32 {
    ((s[i] as u32) << 24) | ((s[i + 1] as u32) << 16) | ((s[i + 2] as u32) << 8) | (s[i + 3] as u32)
}

/// Interpret the eight identifier bytes as two big-endian 32-bit words.
pub fn unique_id_words(id: &[u8]) -> (r: (u32, u32))
    requires
        id@.len() == 8,
    ensures
        r.0 == spec_word_be(id@, 0),
        r.1 == spec_word_be(id@, 4),
{
    let b0 = *vstd::slice::slice_index_get(id, 0);
    let b1 = *vstd::slice::slice_index_get(id, 1);
    let b2 = *vstd::slice::slice_index_get(id, 2);
    let b3 = *vstd::slice::slice_index_get(id, 3);
    let b4 = *vstd::slice::slice_index_get(id, 4);
    let b5 = *vstd::slice::slice_index_get(id, 5);
    let b6 = *vstd::slice::slice_index_get(id, 6);
    let b7 = *vstd::slice::slice_index_get(id, 7);
    let w0 = ((b0 as u32) << 24) | ((b1 as u32) << 16) | ((b2 as u32) << 8) | (b3 as u32);
    let w1 = ((b4 as u32) << 24) | ((b5 as u32) << 16) | ((b6 as u32) << 8) | (b7 as u32);
    (w0, w1)
}

/// Read the 256-byte serial flash discoverable parameter table.
pub fn read_sfdp() -> (t: Transaction)
    ensures
        t.ops@.len() == 2,
        t.ops@[0].is_write_of(spec_header(Register::READ_SFDP_REGISTER.spec_opcode(), 0)),
        t.ops@[1].is_read_of(256),
{
    let header = encode_header(Register::READ_SFDP_REGISTER.opcode(), 0);
    let mut ops: Vec<BusOp> = Vec::new();
    ops.push(BusOp::Write(header));
    ops.push(BusOp::Read(256));
    Transaction { ops }
}

/// Read the selected status register: its read opcode, then one byte back.
pub fn read_status_register(register: &SR) -> (t: Transaction)
    ensures
        t.ops@.len() == 2,
        t.ops@[1].is_read_of(1),
        (register matches SR::SR1(_) ==> t.ops@[0].is_write_of(
            seq![Register::READ_STATUS_REGISTER_1.spec_opcode()],
        )),
        (register matches SR::SR2(_) ==> t.ops@[0].is_write_of(
            seq![Register::READ_STATUS_REGISTER_2.spec_opcode()],
        )),
        (register matches SR::SR3(_) ==> t.ops@[0].is_write_of(
            seq![Register::READ_STATUS_REGISTER_3.spec_opcode()],
        )),
{
    let cmd = match register {
        SR::SR1(_) => Register::READ_STATUS_REGISTER_1,
        SR::SR2(_) => Register::READ_STATUS_REGISTER_2,
        SR::SR3(_) => Register::READ_STATUS_REGISTER_3,
    };
    read_register(cmd.opcode(), 1)
}

/// Write the selected status register, behind the write gate.  The payload
/// is the writable-subset projection of the given fields: read-only bits are
/// never transmitted.
pub fn write_status_register(register: &SR) -> (r: GatedCommand)
    ensures
        is_write_enable(r.enable),
        r.command.ops@.len() == 2,
        (register matches SR::SR1(s) ==> r.command.ops@[0].is_write_of(
            seq![Register::WRITE_STATUS_REGISTER_1.spec_opcode()],
        ) && r.command.ops@[1].is_write_of(seq![s.spec_writable()])),
        (register matches SR::SR2(s) ==> r.command.ops@[0].is_write_of(
            seq![Register::WRITE_STATUS_REGISTER_2.spec_opcode()],
        ) && r.command.ops@[1].is_write_of(seq![s.spec_writable()])),
        (register matches SR::SR3(s) ==> r.command.ops@[0].is_write_of(
            seq![Register::WRITE_STATUS_REGISTER_3.spec_opcode()],
        ) && r.command.ops@[1].is_write_of(seq![s.spec_writable()])),
{
    let (cmd, value) = match register {
        SR::SR1(sr1) => (Register::WRITE_STATUS_REGISTER_1, sr1.to_writable_u8()),
        SR::SR2(sr2) => (Register::WRITE_STATUS_REGISTER_2, sr2.to_writable_u8()),
        SR::SR3(sr3) => (Register::WRITE_STATUS_REGISTER_3, sr3.to_writable_u8()),
    };
    let mut cmd_bytes: Vec<u8> = Vec::new();
    cmd_bytes.push(cmd.opcode());
    let mut value_bytes: Vec<u8> = Vec::new();
    value_bytes.push(value);
    let mut ops: Vec<BusOp> = Vec::new();
    ops.push(BusOp::Write(cmd_bytes));
    ops.push(BusOp::Write(value_bytes));
    GatedCommand { enable: write_enable(), command: Transaction { ops } }
}

/// Erase the security register page at `address`, behind the write gate.
pub fn erase_security_register(address: u32) -> (r: Result<GatedCommand, FlashError>)
    ensures
        address <= MAX_ADDRESS ==> (r matches Ok(g) && is_write_enable(g.enable)
            && is_address_command(
            g.command,
            Register::ERASE_SECURITY_REGISTER.spec_opcode(),
            address,
        )),
        address > MAX_ADDRESS ==> r == Err::<GatedCommand, FlashError>(
            FlashError::AddressOutOfRange,
        ),
{
    gated_address_command(Register::ERASE_SECURITY_REGISTER.opcode(), address)
}

/// Program the security register page at `address`, behind the write gate.
pub fn program_security_register(address: u32, data: &[u8]) -> (r: Result<
    GatedCommand,
    FlashError,
>)
    ensures
        address <= MAX_ADDRESS ==> (r matches Ok(g) && is_write_enable(g.enable)
            && g.command.ops@.len() == 2
            && g.command.ops@[0].is_write_of(
            spec_header(Register::PROGRAM_SECURITY_REGISTER.spec_opcode(), address),
        ) && g.command.ops@[1].is_write_of(data@)),
        address > MAX_ADDRESS ==> r == Err::<GatedCommand, FlashError>(
            FlashError::AddressOutOfRange,
        ),
{
    match write_address(Register::PROGRAM_SECURITY_REGISTER.opcode(), address, data) {
        Ok(t) => Ok(GatedCommand { enable: write_enable(), command: t }),
        Err(e) => Err(e),
    }
}

/// Read `len` bytes of the security register page at `address`.
pub fn read_security_register(address: u32, len: usize) -> (r: Result<Transaction, FlashError>)
    ensures
        address <= MAX_ADDRESS ==> (r matches Ok(t) && t.ops@.len() == 2 && t.ops@[0].is_write_of(
            spec_header(Register::READ_SECURITY_REGISTER.spec_opcode(), address),
        ) && t.ops@[1].is_read_of(len as int)),
        address > MAX_ADDRESS ==> r == Err::<Transaction, FlashError>(
            FlashError::AddressOutOfRange,
        ),
{
    read_from_address(Register::READ_SECURITY_REGISTER.opcode(), address, len)
}

/// Lock every block, behind the write gate (no busy poll follows).
pub fn global_block_lock() -> (r: GatedCommand)
    ensures
        is_write_enable(r.enable),
        is_single(r.command, Register::GLOBAL_BLOCK_LOCK.spec_opcode()),
{
    GatedCommand {
        enable: write_enable(),
        command: single_command(Register::GLOBAL_BLOCK_LOCK.opcode()),
    }
}

/// Unlock every block, behind the write gate (no busy poll follows).
pub fn global_block_unlock() -> (r: GatedCommand)
    ensures
        is_write_enable(r.enable),
        is_single(r.command, Register::GLOBAL_BLOCK_UNLOCK.spec_opcode()),
{
    GatedCommand {
        enable: write_enable(),
        command: single_command(Register::GLOBAL_BLOCK_UNLOCK.opcode()),
    }
}

/// Ask whether the block at `address` is locked: one status byte comes back.
pub fn read_block_lock(address: u32) -> (r: Result<Transaction, FlashError>)
    ensures
        address <= MAX_ADDRESS ==> (r matches Ok(t) && t.ops@.len() == 2 && t.ops@[0].is_write_of(
            spec_header(Register::READ_BLOCK_LOCK.spec_opcode(), address),
        ) && t.ops@[1].is_read_of(1)),
        address > MAX_ADDRESS ==> r == Err::<Transaction, FlashError>(
            FlashError::AddressOutOfRange,
        ),
{
    read_from_address(Register::READ_BLOCK_LOCK.opcode(), address, 1)
}

/// The lock bit of a block-lock status byte.
pub fn block_locked(status: u8) -> (r: bool)
    ensures
        r == ((status & 0x01) != 0),
{
    status & 0x01 != 0
}

/// Lock the block at `address`, behind the write gate.
pub fn individual_block_lock(address: u32) -> (r: Result<GatedCommand, FlashError>)
    ensures
        address <= MAX_ADDRESS ==> (r matches Ok(g) && is_write_enable(g.enable)
            && is_address_command(
            g.command,
            Register::INDIVIDUAL_BLOCK_LOCK.spec_opcode(),
            address,
        )),
        address > MAX_ADDRESS ==> r == Err::<GatedCommand, FlashError>(
            FlashError::AddressOutOfRange,
        ),
{
    gated_address_command(Register::INDIVIDUAL_BLOCK_LOCK.opcode(), address)
}

/// Unlock the block at `address`, behind the write gate.
pub fn individual_block_unlock(address: u32) -> (r: Result<GatedCommand, FlashError>)
    ensures
        address <= MAX_ADDRESS ==> (r matches Ok(g) && is_write_enable(g.enable)
            && is_address_command(
            g.command,
            Register::INDIVIDUAL_BLOCK_UNLOCK.spec_opcode(),
            address,
        )),
        address > MAX_ADDRESS ==> r == Err::<GatedCommand, FlashError>(
            FlashError::AddressOutOfRange,
        ),
{
    gated_address_command(Register::INDIVIDUAL_BLOCK_UNLOCK.opcode(), address)
}

/// Enter the low-power state.
pub fn power_down() -> (t: Transaction)
    ensures
        is_single(t, Register::POWER_DOWN.spec_opcode()),
{
    single_command(Register::POWER_DOWN.opcode())
}

/// Leave the low-power state.
pub fn release_power_down() -> (t: Transaction)
    ensures
        is_single(t, Register::RELEASE_POWER_DOWN.spec_opcode()),
{
    single_command(Register::RELEASE_POWER_DOWN.opcode())
}

/// Suspend a running erase or program operation.
pub fn erase_program_suspend() -> (t: Transaction)
    ensures
        is_single(t, Register::ERASE_PROGRAM_SUSPEND.spec_opcode()),
{
    single_command(Register::ERASE_PROGRAM_SUSPEND.opcode())
}

/// Resume a suspended erase or program operation.
pub fn erase_program_resume() -> (t: Transaction)
    ensures
        is_single(t, Register::ERASE_PROGRAM_RESUME.spec_opcode()),
{
    single_command(Register::ERASE_PROGRAM_RESUME.opcode())
}

/// Reset the chip: enable-reset immediately followed by reset-device, in one
/// exchange.  The caller waits [`RESET_SETTLE_MS`] afterwards.
pub fn reset_device() -> (t: Transaction)
    ensures
        t.ops@.len() == 2,
        t.ops@[0].is_write_of(seq![Register::ENABLE_RESET.spec_opcode()]),
        t.ops@[1].is_write_of(seq![Register::RESET_DEVICE.spec_opcode()]),
{
    let mut enable: Vec<u8> = Vec::new();
    enable.push(Register::ENABLE_RESET.opcode());
    let mut reset: Vec<u8> = Vec::new();
    reset.push(Register::RESET_DEVICE.opcode());
    proof {
        assert(enable@ =~= seq![Register::ENABLE_RESET.spec_opcode()]);
        assert(reset@ =~= seq![Register::RESET_DEVICE.spec_opcode()]);
    }
    let mut ops: Vec<BusOp> = Vec::new();
    ops.push(BusOp::Write(enable));
    ops.push(BusOp::Write(reset));
    Transaction { ops }
}

/// The page-aligned chunks of a write request: starting at `offset`, each
/// chunk runs to the next page boundary or to the end of the data, whichever
/// comes first.
pub open spec fn spec_chunks(offset: int, len: int) -> Seq<(int, int)>
    decreases len,
{
    if len <= 0 {
        Seq::empty()
    } else {
        let in_page = (PAGE_SIZE as int) - (offset % (PAGE_SIZE as int));
        let take = if in_page <= len {
            in_page
        } else {
            len
        };
        seq![(offset, take)] + spec_chunks(offset + take, len - take)
    }
}

/// The mathematical view of a chunk list.
pub open spec fn chunks_view(v: Seq<(u32, usize)>) -> Seq<(int, int)> {
    v.map_values(|c: (u32, usize)| (c.0 as int, c.1 as int))
}

/// Split a write of `len` bytes at `offset` at every page boundary, so that
/// no program command crosses a page.  A range that runs past the end of the
/// address space is rejected whole.
pub fn write_chunks(offset: usize, len: usize) -> (r: Result<Vec<(u32, usize)>, FlashError>)
    ensures
        offset + len <= TOTAL_SIZE ==> (r matches Ok(v) && chunks_view(v@) == spec_chunks(
            offset as int,
            len as int,
        )),
        offset + len > TOTAL_SIZE ==> r == Err::<Vec<(u32, usize)>, FlashError>(
            FlashError::AddressOutOfRange,
        ),
{
    if offset > TOTAL_SIZE || len > TOTAL_SIZE - offset {
        return Err(FlashError::AddressOutOfRange);
    }
    let mut v: Vec<(u32, usize)> = Vec::new();
    let mut cur: usize = offset;
    let mut rem: usize = len;
    while rem > 0
        invariant
            cur + rem <= TOTAL_SIZE,
            chunks_view(v@) + spec_chunks(cur as int, rem as int) == spec_chunks(
                offset as int,
                len as int,
            ),
        decreases rem,
    {
        let in_page = PAGE_SIZE - (cur % PAGE_SIZE);
        let take = min(in_page, rem);
        let ghost prev = v@;
        v.push((cur as u32, take));
        proof {
            assert(chunks_view(v@) =~= chunks_view(prev) + seq![(cur as int, take as int)]);
            assert(chunks_view(prev) + spec_chunks(cur as int, rem as int) =~= chunks_view(v@)
                + spec_chunks(cur + take, rem - take));
        }
        cur = cur + take;
        rem = rem - take;
    }
    proof {
        assert(chunks_view(v@) =~= spec_chunks(offset as int, len as int));
    }
    Ok(v)
}

/// The total byte count of a chunk list.
pub open spec fn chunk_total(s: Seq<(int, int)>) -> int
    decreases s.len(),
{
    if s.len() == 0 {
        0
    } else {
        s[0].1 + chunk_total(s.drop_first())
    }
}

/// The page-split chunks cover the request exactly: they start at `offset`,
/// run back to back, their lengths sum to `len`, none is empty, and none
/// crosses a page boundary.
pub proof fn lemma_chunks_cover(offset: int, len: int)
    requires
        0 <= offset,
        0 <= len,
    ensures
        chunk_total(spec_chunks(offset, len)) == len,
        len > 0 ==> spec_chunks(offset, len).len() > 0 && spec_chunks(offset, len)[0].0 == offset,
        forall|i: int|
            0 <= i < spec_chunks(offset, len).len() ==> 0 < (#[trigger] spec_chunks(offset, len)[i]).1,
        forall|i: int|
            0 <= i < spec_chunks(offset, len).len() ==> (#[trigger] spec_chunks(offset, len)[i]).0 % (
            PAGE_SIZE as int) + spec_chunks(offset, len)[i].1 <= (PAGE_SIZE as int),
        forall|i: int|
            0 <= i < spec_chunks(offset, len).len() - 1 ==> (#[trigger] spec_chunks(offset, len)[i
                + 1]).0 == spec_chunks(offset, len)[i].0 + spec_chunks(offset, len)[i].1,
    decreases len,
{
    if len > 0 {
        let ps = PAGE_SIZE as int;
        lemma_mod_bound(offset, ps);
        let in_page = ps - offset % ps;
        let take = if in_page <= len {
            in_page
        } else {
            len
        };
        let head = (offset, take);
        let rest = spec_chunks(offset + take, len - take);
        let s = spec_chunks(offset, len);
        assert(s =~= seq![head] + rest);
        lemma_chunks_cover(offset + take, len - take);
        assert(s.drop_first() =~= rest);
        assert(chunk_total(s) == take + chunk_total(rest));
        assert((offset + take) % ps == 0 || len - take == 0) by {
            if in_page <= len {
                lemma_fundamental_div_mod(offset, ps);
                lemma_fundamental_div_mod(offset + take, ps);
                lemma_mod_bound(offset + take, ps);
                assert((offset + take) % ps == 0) by (nonlinear_arith)
                    requires
                        offset == ps * (offset / ps) + offset % ps,
                        take == ps - offset % ps,
                        offset + take == ps * ((offset + take) / ps) + (offset + take) % ps,
                        0 <= (offset + take) % ps < ps,
                        ps == 256,
                ;
            }
        }
        assert forall|i: int| 0 <= i < s.len() - 1 implies (#[trigger] s[i + 1]).0 == s[i].0
            + s[i].1 by {
            if i == 0 {
                assert(rest.len() > 0);
                assert(s[1] == rest[0]);
            } else {
                assert(s[i] == rest[i - 1]);
                assert(s[i + 1] == rest[i]);
            }
        }
    }
}

/// The index of the sector containing `offset`.
pub open spec fn first_sector(offset: int) -> int {
    offset / (SECTOR_SIZE as int)
}

/// One past the index of the last sector the range `[offset, offset + len)`
/// touches.
pub open spec fn end_sector(offset: int, len: int) -> int {
    (offset + len + SECTOR_SIZE - 1) / (SECTOR_SIZE as int)
}

/// The expanded sector range covers the erase request and touches nothing
/// needlessly: the first sector begins at or before `offset`, the last ends
/// at or past `offset + len`, and both of them intersect the request.
pub proof fn lemma_erase_covers(offset: int, len: int)
    requires
        0 <= offset,
        0 < len,
    ensures
        first_sector(offset) * (SECTOR_SIZE as int) <= offset,
        offset < (first_sector(offset) + 1) * (SECTOR_SIZE as int),
        offset + len <= end_sector(offset, len) * (SECTOR_SIZE as int),
        (end_sector(offset, len) - 1) * (SECTOR_SIZE as int) < offset + len,
        first_sector(offset) < end_sector(offset, len),
{
    let ss = SECTOR_SIZE as int;
    let f = first_sector(offset);
    let e = end_sector(offset, len);
    lemma_fundamental_div_mod(offset, ss);
    lemma_mod_bound(offset, ss);
    lemma_fundamental_div_mod(offset + len + ss - 1, ss);
    lemma_mod_bound(offset + len + ss - 1, ss);
    assert(f * ss <= offset < (f + 1) * ss) by (nonlinear_arith)
        requires
            offset == ss * f + offset % ss,
            0 <= offset % ss < ss,
    ;
    assert(offset + len <= e * ss && (e - 1) * ss < offset + len) by (nonlinear_arith)
        requires
            offset + len + ss - 1 == ss * e + (offset + len + ss - 1) % ss,
            0 <= (offset + len + ss - 1) % ss < ss,
    ;
    assert(f < e) by (nonlinear_arith)
        requires
            f * ss <= offset,
            offset + len <= e * ss,
            0 < len,
            ss == 4096,
    ;
}

/// Expand an erase request to whole sectors: the base address of every
/// sector the range `[offset, offset + len)` intersects, in ascending order,
/// together with the byte count those sectors cover.  The count may exceed
/// `len` because erasing works on whole sectors only.  An empty range
/// intersects no sector and erases nothing.  A range that runs past the end
/// of the address space is rejected whole.
pub fn erase_sectors(offset: usize, len: usize) -> (r: Result<(Vec<u32>, usize), FlashError>)
    ensures
        offset + len <= TOTAL_SIZE && len > 0 ==> (r matches Ok(p) && p.0@.len() == end_sector(
            offset as int,
            len as int,
        ) - first_sector(offset as int) && (forall|i: int|
            0 <= i < p.0@.len() ==> p.0@[i] == (first_sector(offset as int) + i) * (
            SECTOR_SIZE as int)) && p.1 == (end_sector(offset as int, len as int) - first_sector(
            offset as int,
        )) * (SECTOR_SIZE as int)),
        offset + len <= TOTAL_SIZE && len == 0 ==> (r matches Ok(p) && p.0@.len() == 0 && p.1
            == 0),
        offset + len > TOTAL_SIZE ==> r == Err::<(Vec<u32>, usize), FlashError>(
            FlashError::AddressOutOfRange,
        ),
{
    if offset > TOTAL_SIZE || len > TOTAL_SIZE - offset {
        return Err(FlashError::AddressOutOfRange);
    }
    if len == 0 {
        return Ok((Vec::new(), 0));
    }
    let start = offset / SECTOR_SIZE;
    let end = (offset + len + (SECTOR_SIZE - 1)) / SECTOR_SIZE;
    let mut addrs: Vec<u32> = Vec::new();
    let mut s = start;
    while s < end
        invariant
            start <= s <= end,
            end <= crate::SECTOR_COUNT,
            addrs@.len() == s - start,
            forall|i: int|
                0 <= i < addrs@.len() ==> addrs@[i] == (start + i) * (SECTOR_SIZE as int),
        decreases end - s,
    {
        addrs.push((s * SECTOR_SIZE) as u32);
        s = s + 1;
    }
    let bytes = (end - start) * SECTOR_SIZE;
    Ok((addrs, bytes))
}

} // verus!
