//! Wire framing of the DW3000 serial interface.
//!
//! The chip takes two kinds of transaction, each bounded by one chip-select
//! assertion: a full-addressed transaction, which is a 2-byte header followed
//! by the bytes written to or read from a register, and a fast command, which
//! is a single byte. Nothing here touches a bus: the functions build the bytes
//! that go on it and read the bytes that come back.

use crate::registers::Register;
use vstd::prelude::*;

verus! {

/// First header byte of a full-addressed transaction:
/// direction, the full-addressed mark, the register file, the top offset bit.
pub open spec fn header_byte0(write: bool, id: u8, sub: u8) -> u8 {
    let direction = if write { 0x80u8 } else { 0x00u8 };
    direction | 0x40u8 | ((id & 0x1Fu8) << 1u8) | ((sub >> 6u8) & 0x01u8)
}

/// Second header byte: the low six offset bits above two zero mode bits.
pub open spec fn header_byte1(sub: u8) -> u8 {
    (sub & 0x3Fu8) << 2u8
}

/// The header of a full-addressed transaction on `reg`.
pub open spec fn header(write: bool, reg: Register) -> Seq<u8> {
    seq![header_byte0(write, reg.id, reg.sub), header_byte1(reg.sub)]
}

/// Builds the 2-byte header of a full-addressed transaction.
pub fn build_header(write: bool, reg: Register) -> (bytes: [u8; 2])
    ensures
        bytes@ == header(write, reg),
{
    let direction: u8 = if write { 0x80 } else { 0x00 };
    let b0: u8 = direction | 0x40 | ((reg.id & 0x1F) << 1) | ((reg.sub >> 6) & 0x01);
    let b1: u8 = (reg.sub & 0x3F) << 2;
    let bytes: [u8; 2] = [b0, b1];
    assert(bytes@ =~= header(write, reg));
    bytes
}

/// Each field of the header can be read back from its bits: bit 7 of the
/// first byte is the direction, bit 6 is set, bits 5 to 1 are the low five
/// bits of the register file and bit 0 is bit 6 of the offset; bits 7 to 2 of
/// the second byte are the low six bits of the offset and bits 1 and 0 are
/// clear.
pub proof fn header_fields(write: bool, reg: Register)
    ensures
        header(write, reg).len() == 2,
        header(write, reg)[0] >> 7u8 == (if write { 1u8 } else { 0u8 }),
        (header(write, reg)[0] >> 6u8) & 0x01u8 == 1u8,
        (header(write, reg)[0] >> 1u8) & 0x1Fu8 == reg.id & 0x1Fu8,
        header(write, reg)[0] & 0x01u8 == (reg.sub >> 6u8) & 0x01u8,
        header(write, reg)[1] >> 2u8 == reg.sub & 0x3Fu8,
        header(write, reg)[1] & 0x03u8 == 0u8,
{
    let id = reg.id;
    let sub = reg.sub;
    let b0 = header_byte0(write, id, sub);
    let b1 = header_byte1(sub);
    assert(b0 >> 7u8 == (if write { 1u8 } else { 0u8 }) && (b0 >> 6u8) & 0x01u8 == 1u8 && (b0
        >> 1u8) & 0x1Fu8 == id & 0x1Fu8 && b0 & 0x01u8 == (sub >> 6u8) & 0x01u8) by (bit_vector)
        requires
            b0 == (if write { 0x80u8 } else { 0x00u8 }) | 0x40u8 | ((id & 0x1Fu8) << 1u8) | ((sub
                >> 6u8) & 0x01u8),
    ;
    assert(b1 >> 2u8 == sub & 0x3Fu8 && b1 & 0x03u8 == 0u8) by (bit_vector)
        requires
            b1 == (sub & 0x3Fu8) << 2u8,
    ;
}

/// For a register that can be addressed, the header as numbers: the first
/// byte is the direction (128 for a write) plus 64 plus twice the register
/// file plus the top bit of the offset, the second is four times the low six
/// bits of the offset.
pub proof fn header_value(write: bool, reg: Register)
    requires
        reg.addressable(),
    ensures
        header(write, reg)[0] == (if write { 128int } else { 0int }) + 64 + 2 * reg.id + reg.sub
            / 64,
        header(write, reg)[1] == 4 * (reg.sub % 64),
{
    let id = reg.id;
    let sub = reg.sub;
    let b0 = header_byte0(write, id, sub);
    let b1 = header_byte1(sub);
    assert(b0 == (if write { 128u8 } else { 0u8 }) + 64u8 + 2u8 * id + sub / 64u8) by (bit_vector)
        requires
            id < 32u8,
            sub < 128u8,
            b0 == (if write { 0x80u8 } else { 0x00u8 }) | 0x40u8 | ((id & 0x1Fu8) << 1u8) | ((sub
                >> 6u8) & 0x01u8),
    ;
    assert(b1 == 4u8 * (sub % 64u8)) by (bit_vector)
        requires
            b1 == (sub & 0x3Fu8) << 2u8,
    ;
}

/// Two registers that can be addressed have the same header for the same
/// direction only if they lie at the same place.
pub proof fn header_injective(write1: bool, reg1: Register, write2: bool, reg2: Register)
    requires
        reg1.addressable(),
        reg2.addressable(),
        header(write1, reg1) == header(write2, reg2),
    ensures
        write1 == write2,
        reg1.id == reg2.id,
        reg1.sub == reg2.sub,
{
    header_value(write1, reg1);
    header_value(write2, reg2);
    assert(header(write1, reg1)[0] == header(write2, reg2)[0]);
    assert(header(write1, reg1)[1] == header(write2, reg2)[1]);
}

/// The byte of a fast command: a set top bit, the low five bits of the
/// command code, a set bottom bit.
pub open spec fn command_byte(cmd: u8) -> u8 {
    0x80u8 | ((cmd & 0x1Fu8) << 1u8) | 0x01u8
}

/// For a command code below 32 the byte is 129 plus twice the code.
pub proof fn command_byte_value(cmd: u8)
    requires
        cmd < 32,
    ensures
        command_byte(cmd) == 129 + 2 * cmd,
{
    let byte = command_byte(cmd);
    assert(byte == 129u8 + 2u8 * cmd) by (bit_vector)
        requires
            cmd < 32u8,
            byte == 0x80u8 | ((cmd & 0x1Fu8) << 1u8) | 0x01u8,
    ;
}

/// The four bytes of a 32-bit word, least significant first.
pub open spec fn le_bytes(value: u32) -> Seq<u8> {
    seq![
        (value % 256) as u8,
        (value / 256 % 256) as u8,
        (value / 65536 % 256) as u8,
        (value / 16777216) as u8,
    ]
}

/// The 32-bit word whose bytes, least significant first, are `bytes`.
pub open spec fn le_value(bytes: Seq<u8>) -> u32
    recommends
        bytes.len() == 4,
{
    (bytes[0] + 256 * bytes[1] + 65536 * bytes[2] + 16777216 * bytes[3]) as u32
}

/// Serialises a 32-bit word in little-endian order.
pub fn u32_to_le_bytes(value: u32) -> (bytes: [u8; 4])
    ensures
        bytes@ == le_bytes(value),
{
    let b0: u8 = (value & 0xFF) as u8;
    let b1: u8 = ((value >> 8) & 0xFF) as u8;
    let b2: u8 = ((value >> 16) & 0xFF) as u8;
    let b3: u8 = (value >> 24) as u8;
    proof {
        assert(value & 0xFF == value % 256 && (value >> 8) & 0xFF == value / 256 % 256 && (value
            >> 16) & 0xFF == value / 65536 % 256 && value >> 24 == value / 16777216 && value
            >> 24 < 256) by (bit_vector);
    }
    let bytes: [u8; 4] = [b0, b1, b2, b3];
    assert(bytes@ =~= le_bytes(value));
    bytes
}

/// Reads a 32-bit word from its little-endian bytes.
pub fn u32_from_le_bytes(bytes: [u8; 4]) -> (value: u32)
    ensures
        value == le_value(bytes@),
{
    let b0: u32 = bytes[0] as u32;
    let b1: u32 = bytes[1] as u32;
    let b2: u32 = bytes[2] as u32;
    let b3: u32 = bytes[3] as u32;
    b0 + 256 * b1 + 65536 * b2 + 16777216 * b3
}

/// A word survives the trip through its little-endian bytes.
pub proof fn le_value_of_bytes(value: u32)
    ensures
        le_bytes(value).len() == 4,
        le_value(le_bytes(value)) == value,
{
    let v = value as int;
    let r1 = v / 256;
    let r2 = r1 / 256;
    let r3 = r2 / 256;
    assert(v == 256 * r1 + v % 256);
    assert(r1 == 256 * r2 + r1 % 256);
    assert(r2 == 256 * r3 + r2 % 256);
    assert(v == 65536 * r2 + (256 * (r1 % 256) + v % 256));
    assert(r2 == v / 65536);
    assert(v == 16777216 * r3 + (65536 * (r2 % 256) + 256 * (r1 % 256) + v % 256));
    assert(r3 == v / 16777216);
    assert(r3 < 256);
}

/// Four bytes survive the trip through the word they spell.
pub proof fn le_bytes_of_value(bytes: Seq<u8>)
    requires
        bytes.len() == 4,
    ensures
        le_bytes(le_value(bytes)) == bytes,
{
    let b0 = bytes[0] as int;
    let b1 = bytes[1] as int;
    let b2 = bytes[2] as int;
    let b3 = bytes[3] as int;
    let v = b0 + 256 * b1 + 65536 * b2 + 16777216 * b3;
    assert(le_value(bytes) == v);
    assert(v % 256 == b0);
    assert(v / 256 == b1 + 256 * b2 + 65536 * b3);
    assert(v / 256 % 256 == b1);
    assert(v / 65536 == b2 + 256 * b3);
    assert(v / 65536 % 256 == b2);
    assert(v / 16777216 == b3);
    assert(le_bytes(le_value(bytes)) =~= bytes);
}

/// A word written to a register comes back from it. What goes out after the
/// write header are four bytes that spell the word, least significant
/// first, and the header that reads the register differs from the header
/// that writes it in the direction bit alone: a transport that hands back
/// what was written answers the read with the word.
pub proof fn word_loops_back(reg: Register, value: u32)
    ensures
        le_bytes(value).len() == 4,
        le_value(le_bytes(value)) == value,
        header(true, reg)[0] == header(false, reg)[0] | 0x80u8,
        header(false, reg)[0] == header(true, reg)[0] & 0x7Fu8,
        header(true, reg)[1] == header(false, reg)[1],
{
    le_value_of_bytes(value);
    let id = reg.id;
    let sub = reg.sub;
    let read = header_byte0(false, id, sub);
    let write = header_byte0(true, id, sub);
    assert(write == read | 0x80u8 && read == write & 0x7Fu8) by (bit_vector)
        requires
            read == 0x00u8 | 0x40u8 | ((id & 0x1Fu8) << 1u8) | ((sub >> 6u8) & 0x01u8),
            write == 0x80u8 | 0x40u8 | ((id & 0x1Fu8) << 1u8) | ((sub >> 6u8) & 0x01u8),
    ;
}

/// One transaction on the bus, bounded by a single chip-select assertion.
#[derive(Clone, Copy, Debug, PartialEq, Eq)]
pub enum Transaction<'a> {
    /// One byte is written: a fast command.
    Command { byte: u8 },
    /// The header is written, then `data`.
    Write { header: [u8; 2], data: &'a [u8] },
    /// The header is written, then the four bytes of a word.
    WriteWord { header: [u8; 2], word: [u8; 4] },
    /// The header is written, then four bytes are read and handed back to
    /// the driver.
    ReadWord { header: [u8; 2] },
    /// The header is written, then `len` bytes are read into the caller's
    /// buffer.
    Read { header: [u8; 2], len: usize },
}

/// What a transaction puts on the bus and takes from it.
pub enum TransactionView {
    Command { byte: u8 },
    Write { header: Seq<u8>, data: Seq<u8> },
    ReadWord { header: Seq<u8> },
    Read { header: Seq<u8>, len: nat },
}

impl<'a> View for Transaction<'a> {
    type V = TransactionView;

    open spec fn view(&self) -> TransactionView {
        match *self {
            Transaction::Command { byte } => TransactionView::Command { byte },
            Transaction::Write { header, data } => TransactionView::Write {
                header: header@,
                data: data@,
            },
            Transaction::WriteWord { header, word } => TransactionView::Write {
                header: header@,
                data: word@,
            },
            Transaction::ReadWord { header } => TransactionView::ReadWord { header: header@ },
            Transaction::Read { header, len } => TransactionView::Read {
                header: header@,
                len: len as nat,
            },
        }
    }
}

impl TransactionView {
    /// The fast command with code `cmd`.
    pub open spec fn command(cmd: u8) -> TransactionView {
        TransactionView::Command { byte: command_byte(cmd) }
    }

    /// `data` written to `reg`.
    pub open spec fn write(reg: Register, data: Seq<u8>) -> TransactionView {
        TransactionView::Write { header: header(true, reg), data }
    }

    /// `value` written to `reg`, least significant byte first.
    pub open spec fn write_word(reg: Register, value: u32) -> TransactionView {
        TransactionView::Write { header: header(true, reg), data: le_bytes(value) }
    }

    /// A word read from `reg`.
    pub open spec fn read_word(reg: Register) -> TransactionView {
        TransactionView::ReadWord { header: header(false, reg) }
    }

    /// `len` bytes read from `reg`.
    pub open spec fn read(reg: Register, len: nat) -> TransactionView {
        TransactionView::Read { header: header(false, reg), len }
    }
}

/// The transaction that reads `len` bytes from `reg`: a read header, then
/// the bytes.
pub fn read_reg(reg: Register, len: usize) -> (transaction: Transaction<'static>)
    ensures
        transaction@ == TransactionView::read(reg, len as nat),
{
    Transaction::Read { header: build_header(false, reg), len }
}

/// The transaction that writes `data` to `reg`: a write header, then the
/// bytes.
pub fn write_reg<'a>(reg: Register, data: &'a [u8]) -> (transaction: Transaction<'a>)
    ensures
        transaction@ == TransactionView::write(reg, data@),
{
    Transaction::Write { header: build_header(true, reg), data }
}

/// The transaction that issues the fast command with code `cmd`.
pub fn fast_command(cmd: u8) -> (transaction: Transaction<'static>)
    ensures
        transaction@ == TransactionView::command(cmd),
{
    Transaction::Command { byte: 0x80 | ((cmd & 0x1F) << 1) | 0x01 }
}

/// The transaction that reads a 32-bit word from `reg`. The four bytes that
/// come back spell the word least significant first: see
/// [`u32_from_le_bytes`].
pub fn read_reg_u32(reg: Register) -> (transaction: Transaction<'static>)
    ensures
        transaction@ == TransactionView::read_word(reg),
{
    Transaction::ReadWord { header: build_header(false, reg) }
}

/// The transaction that writes the 32-bit word `val` to `reg`, least
/// significant byte first.
pub fn write_reg_u32(reg: Register, val: u32) -> (transaction: Transaction<'static>)
    ensures
        transaction@ == TransactionView::write_word(reg, val),
{
    Transaction::WriteWord { header: build_header(true, reg), word: u32_to_le_bytes(val) }
}

} // verus!
