//! The chip's command opcodes: a closed, compiled-in table.
//!
//! Every chip command starts with one of these one-byte codes.  The set is
//! fixed by the chip family; `opcode` gives the byte sent on the bus.

use vstd::prelude::*;

verus! {

/// One-byte command codes of the chip.
#[allow(non_camel_case_types)]
#[derive(Debug, Clone, Copy, PartialEq, Eq, Structural)]
pub enum Register {
    WRITE_ENABLE,
    VOLATILE_SR_WRITE_ENABLE,
    WRITE_DISABLE,
    RELEASE_POWER_DOWN,
    MANUFACTURER_DEVICE_ID,
    JEDEC_ID,
    READ_UNIQUE_ID,
    READ_DATA,
    FAST_READ,
    FAST_READ_DUAL_OUTPUT,
    FAST_READ_QUAD_OUTPUT,
    PAGE_PROGRAM,
    SECTOR_ERASE,
    BLOCK_ERASE_32KB,
    BLOCK_ERASE_64KB,
    CHIP_ERASE,
    CHIP_ERASE_2,
    READ_STATUS_REGISTER_1,
    WRITE_STATUS_REGISTER_1,
    READ_STATUS_REGISTER_2,
    WRITE_STATUS_REGISTER_2,
    READ_STATUS_REGISTER_3,
    WRITE_STATUS_REGISTER_3,
    READ_SFDP_REGISTER,
    ERASE_SECURITY_REGISTER,
    PROGRAM_SECURITY_REGISTER,
    READ_SECURITY_REGISTER,
    GLOBAL_BLOCK_LOCK,
    GLOBAL_BLOCK_UNLOCK,
    READ_BLOCK_LOCK,
    INDIVIDUAL_BLOCK_LOCK,
    INDIVIDUAL_BLOCK_UNLOCK,
    ERASE_PROGRAM_SUSPEND,
    ERASE_PROGRAM_RESUME,
    POWER_DOWN,
    ENABLE_RESET,
    RESET_DEVICE,
}

impl Register {
    /// The command byte of this opcode, per the chip's command table.
    pub open spec fn spec_opcode(self) -> u8 {
        match self {
            Register::WRITE_ENABLE => 0x06,
            Register::VOLATILE_SR_WRITE_ENABLE => 0x50,
            Register::WRITE_DISABLE => 0x04,
            Register::RELEASE_POWER_DOWN => 0xAB,
            Register::MANUFACTURER_DEVICE_ID => 0x90,
            Register::JEDEC_ID => 0x9F,
            Register::READ_UNIQUE_ID => 0x4B,
            Register::READ_DATA => 0x03,
            Register::FAST_READ => 0x0B,
            Register::FAST_READ_DUAL_OUTPUT => 0x3B,
            Register::FAST_READ_QUAD_OUTPUT => 0x6B,
            Register::PAGE_PROGRAM => 0x02,
            Register::SECTOR_ERASE => 0x20,
            Register::BLOCK_ERASE_32KB => 0x52,
            Register::BLOCK_ERASE_64KB => 0xD8,
            Register::CHIP_ERASE => 0xC7,
            Register::CHIP_ERASE_2 => 0x60,
            Register::READ_STATUS_REGISTER_1 => 0x05,
            Register::WRITE_STATUS_REGISTER_1 => 0x01,
            Register::READ_STATUS_REGISTER_2 => 0x35,
            Register::WRITE_STATUS_REGISTER_2 => 0x31,
            Register::READ_STATUS_REGISTER_3 => 0x15,
            Register::WRITE_STATUS_REGISTER_3 => 0x11,
            Register::READ_SFDP_REGISTER => 0x5A,
            Register::ERASE_SECURITY_REGISTER => 0x44,
            Register::PROGRAM_SECURITY_REGISTER => 0x42,
            Register::READ_SECURITY_REGISTER => 0x48,
            Register::GLOBAL_BLOCK_LOCK => 0x7E,
            Register::GLOBAL_BLOCK_UNLOCK => 0x98,
            Register::READ_BLOCK_LOCK => 0x3D,
            Register::INDIVIDUAL_BLOCK_LOCK => 0x36,
            Register::INDIVIDUAL_BLOCK_UNLOCK => 0x39,
            Register::ERASE_PROGRAM_SUSPEND => 0x75,
            Register::ERASE_PROGRAM_RESUME => 0x7A,
            Register::POWER_DOWN => 0xB9,
            Register::ENABLE_RESET => 0x66,
            Register::RESET_DEVICE => 0x99,
        }
    }

    /// The command byte of this opcode.
    pub fn opcode(self) -> (r: u8)
        ensures
            r == self.spec_opcode(),
    {
        match self {
            Register::WRITE_ENABLE => 0x06,
            Register::VOLATILE_SR_WRITE_ENABLE => 0x50,
            Register::WRITE_DISABLE => 0x04,
            Register::RELEASE_POWER_DOWN => 0xAB,
            Register::MANUFACTURER_DEVICE_ID => 0x90,
            Register::JEDEC_ID => 0x9F,
            Register::READ_UNIQUE_ID => 0x4B,
            Register::READ_DATA => 0x03,
            Register::FAST_READ => 0x0B,
            Register::FAST_READ_DUAL_OUTPUT => 0x3B,
            Register::FAST_READ_QUAD_OUTPUT => 0x6B,
            Register::PAGE_PROGRAM => 0x02,
            Register::SECTOR_ERASE => 0x20,
            Register::BLOCK_ERASE_32KB => 0x52,
            Register::BLOCK_ERASE_64KB => 0xD8,
            Register::CHIP_ERASE => 0xC7,
            Register::CHIP_ERASE_2 => 0x60,
            Register::READ_STATUS_REGISTER_1 => 0x05,
            Register::WRITE_STATUS_REGISTER_1 => 0x01,
            Register::READ_STATUS_REGISTER_2 => 0x35,
            Register::WRITE_STATUS_REGISTER_2 => 0x31,
            Register::READ_STATUS_REGISTER_3 => 0x15,
            Register::WRITE_STATUS_REGISTER_3 => 0x11,
            Register::READ_SFDP_REGISTER => 0x5A,
            Register::ERASE_SECURITY_REGISTER => 0x44,
            Register::PROGRAM_SECURITY_REGISTER => 0x42,
            Register::READ_SECURITY_REGISTER => 0x48,
            Register::GLOBAL_BLOCK_LOCK => 0x7E,
            Register::GLOBAL_BLOCK_UNLOCK => 0x98,
            Register::READ_BLOCK_LOCK => 0x3D,
            Register::INDIVIDUAL_BLOCK_LOCK => 0x36,
            Register::INDIVIDUAL_BLOCK_UNLOCK => 0x39,
            Register::ERASE_PROGRAM_SUSPEND => 0x75,
            Register::ERASE_PROGRAM_RESUME => 0x7A,
            Register::POWER_DOWN => 0xB9,
            Register::ENABLE_RESET => 0x66,
            Register::RESET_DEVICE => 0x99,
        }
    }
}

} // verus!
