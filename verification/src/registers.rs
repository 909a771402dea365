//! Register map of the DW3000 family.
//!
//! A register is addressed by a 5-bit register file and a 7-bit offset inside
//! that file. Lengths are in bytes. The catalog is fixed: each entry is a
//! function without arguments, usable in contracts as well as in code.

use vstd::prelude::*;

verus! {

/// A register descriptor: register file, offset inside the file, byte length.
#[derive(Clone, Copy, Debug, PartialEq, Eq, Structural)]
pub struct Register {
    pub id: u8,
    pub sub: u8,
    pub len: usize,
}

impl Register {
    /// The file fits five bits and the offset fits seven.
    pub open spec fn addressable(self) -> bool {
        self.id < 32 && self.sub < 128
    }
}

/// [`dev_id`], as contracts see it.
pub open spec fn spec_dev_id() -> Register {
    Register { id: 0x00, sub: 0x00, len: 4 }
}

/// Device identifier (read-only): chip model, version and lot.
#[verifier::when_used_as_spec(spec_dev_id)]
pub fn dev_id() -> (reg: Register)
    ensures
        reg == spec_dev_id(),
{
    Register { id: 0x00, sub: 0x00, len: 4 }
}

/// [`eui_64`], as contracts see it.
pub open spec fn spec_eui_64() -> Register {
    Register { id: 0x00, sub: 0x04, len: 8 }
}

/// Extended unique identifier, eight bytes.
#[verifier::when_used_as_spec(spec_eui_64)]
pub fn eui_64() -> (reg: Register)
    ensures
        reg == spec_eui_64(),
{
    Register { id: 0x00, sub: 0x04, len: 8 }
}

/// [`sys_cfg`], as contracts see it.
pub open spec fn spec_sys_cfg() -> Register {
    Register { id: 0x00, sub: 0x10, len: 4 }
}

/// System configuration.
#[verifier::when_used_as_spec(spec_sys_cfg)]
pub fn sys_cfg() -> (reg: Register)
    ensures
        reg == spec_sys_cfg(),
{
    Register { id: 0x00, sub: 0x10, len: 4 }
}

/// [`tx_fctrl`], as contracts see it.
pub open spec fn spec_tx_fctrl() -> Register {
    Register { id: 0x00, sub: 0x24, len: 4 }
}

/// Transmit frame control: frame length, data rate, preamble.
#[verifier::when_used_as_spec(spec_tx_fctrl)]
pub fn tx_fctrl() -> (reg: Register)
    ensures
        reg == spec_tx_fctrl(),
{
    Register { id: 0x00, sub: 0x24, len: 4 }
}

/// [`sys_status`], as contracts see it.
pub open spec fn spec_sys_status() -> Register {
    Register { id: 0x00, sub: 0x44, len: 4 }
}

/// System status: one flag per event, cleared by writing the flag back.
#[verifier::when_used_as_spec(spec_sys_status)]
pub fn sys_status() -> (reg: Register)
    ensures
        reg == spec_sys_status(),
{
    Register { id: 0x00, sub: 0x44, len: 4 }
}

/// [`rx_finfo`], as contracts see it.
pub open spec fn spec_rx_finfo() -> Register {
    Register { id: 0x00, sub: 0x4C, len: 4 }
}

/// Receive frame information: frame length in the low ten bits.
#[verifier::when_used_as_spec(spec_rx_finfo)]
pub fn rx_finfo() -> (reg: Register)
    ensures
        reg == spec_rx_finfo(),
{
    Register { id: 0x00, sub: 0x4C, len: 4 }
}

/// [`tx_buffer`], as contracts see it.
pub open spec fn spec_tx_buffer() -> Register {
    Register { id: 0x14, sub: 0x00, len: 1024 }
}

/// Transmit data buffer (write-only), up to 1024 bytes.
#[verifier::when_used_as_spec(spec_tx_buffer)]
pub fn tx_buffer() -> (reg: Register)
    ensures
        reg == spec_tx_buffer(),
{
    Register { id: 0x14, sub: 0x00, len: 1024 }
}

/// [`rx_buffer`], as contracts see it.
pub open spec fn spec_rx_buffer() -> Register {
    Register { id: 0x12, sub: 0x00, len: 1024 }
}

/// Receive data buffer (read-only), up to 1024 bytes.
#[verifier::when_used_as_spec(spec_rx_buffer)]
pub fn rx_buffer() -> (reg: Register)
    ensures
        reg == spec_rx_buffer(),
{
    Register { id: 0x12, sub: 0x00, len: 1024 }
}

/// Every register of the catalog can be addressed.
pub proof fn catalog_addressable()
    ensures
        dev_id().addressable(),
        eui_64().addressable(),
        sys_cfg().addressable(),
        tx_fctrl().addressable(),
        sys_status().addressable(),
        rx_finfo().addressable(),
        tx_buffer().addressable(),
        rx_buffer().addressable(),
{
}

// Flags of the system status register.

/// Transmit frame sent.
pub const SYS_STATUS_TXFRS: u32 = 0x0000_0080;

/// Receive PHY header error.
pub const SYS_STATUS_RXPHE: u32 = 0x0000_1000;

/// Receive data frame ready.
pub const SYS_STATUS_RXDFR: u32 = 0x0000_2000;

/// Receive frame check sequence good.
pub const SYS_STATUS_RXFCG: u32 = 0x0000_4000;

/// Receive frame check sequence error.
pub const SYS_STATUS_RXFCE: u32 = 0x0000_8000;

/// Receive preamble detection timeout.
pub const SYS_STATUS_RXPTO: u32 = 0x0020_0000;

/// Receive start-of-frame delimiter timeout.
pub const SYS_STATUS_RXSFDTO: u32 = 0x0400_0000;

/// Frame length field of the receive frame information register.
pub const RX_FINFO_RXFLEN_MASK: u32 = 0x0000_03FF;

// Fast command codes.

/// Start transmission.
pub const CMD_TX: u8 = 0x01;

/// Enable the receiver.
pub const CMD_RX: u8 = 0x02;

/// Abort transmission or reception and return to idle.
pub const CMD_TXRXOFF: u8 = 0x03;

/// Enable the receiver, delayed, double-buffered.
pub const CMD_DRX: u8 = 0x04;

/// Clear all interrupt flags.
pub const CMD_CLR_IRQS: u8 = 0x0E;

} // verus!
