//! SPI command framing for the DRV8301.
//!
//! A frame is 16 bits: the operation bit (read = 1, write = 0) at bit 15,
//! the 4-bit register address at bits 14-11, and the 11-bit payload at bits
//! 10-0. The framer is pure: the address is masked to 4 bits, the payload to
//! 11 bits, and an oversized payload is truncated silently.

use vstd::prelude::*;

verus! {

/// Mask for the 4-bit register address of a frame.
pub const ADDR_MASK: u8 = 0b00001111;

/// Mask for the 11-bit data payload of a frame.
pub const DATA_MASK: u16 = 0b0000011111111111;

/// The operation of a bus transaction: read a register or write one.
#[derive(Clone, Copy, Debug, PartialEq, Eq, Structural)]
pub enum RwMode {
    Read,
    Write,
}

impl RwMode {
    /// The operation bit at the top of the frame.
    pub open spec fn spec_bit(self) -> u16 {
        match self {
            RwMode::Read => 1,
            RwMode::Write => 0,
        }
    }

    pub fn bit(self) -> (b: u16)
        ensures
            b == self.spec_bit(),
    {
        match self {
            RwMode::Read => 1,
            RwMode::Write => 0,
        }
    }
}

/// One SPI command: the operation, the target register's address and the
/// data payload. Built fresh per transaction, never persisted.
#[derive(Clone, Copy, Debug, PartialEq, Eq, Structural)]
pub struct SpiCommand {
    pub rw: RwMode,
    pub addr: u8,
    pub data: u16,
}

impl SpiCommand {
    /// A write command carrying `data` for the register at `addr`.
    pub fn write(addr: u8, data: u16) -> (c: SpiCommand)
        ensures
            c == (SpiCommand { rw: RwMode::Write, addr, data }),
    {
        SpiCommand { rw: RwMode::Write, addr, data }
    }

    /// A read command for the register at `addr`; its payload is zero.
    pub fn read(addr: u8) -> (c: SpiCommand)
        ensures
            c == (SpiCommand { rw: RwMode::Read, addr, data: 0u16 }),
    {
        SpiCommand { rw: RwMode::Read, addr, data: 0u16 }
    }

    /// The 16-bit wire frame of this command: operation bit, masked
    /// address, masked payload.
    pub open spec fn spec_frame(self) -> u16 {
        (self.rw.spec_bit() << 15) | (((self.addr & ADDR_MASK) as u16) << 11) | (self.data
            & DATA_MASK)
    }

    pub fn frame(&self) -> (f: u16)
        ensures
            f == self.spec_frame(),
    {
        let rw_val: u16 = self.rw.bit();
        let addr_val: u16 = (self.addr & ADDR_MASK) as u16;
        let data: u16 = self.data & DATA_MASK;
        (rw_val << 15) | (addr_val << 11) | data
    }
}

/// The frame of a read command for the register at `addr`.
pub open spec fn spec_read_frame(addr: u8) -> u16 {
    (SpiCommand { rw: RwMode::Read, addr, data: 0u16 }).spec_frame()
}

/// The frame of a write command carrying `payload` for the register at
/// `addr`.
pub open spec fn spec_write_frame(addr: u8, payload: u16) -> u16 {
    (SpiCommand { rw: RwMode::Write, addr, data: payload }).spec_frame()
}

/// Builds the wire frame for a single read transaction of the register at
/// `addr`.
pub fn frame_for_read(addr: u8) -> (f: u16)
    ensures
        f == spec_read_frame(addr),
{
    SpiCommand::read(addr).frame()
}

/// Builds the wire frame for a single write transaction carrying `payload`
/// to the register at `addr`.
pub fn frame_for_write(addr: u8, payload: u16) -> (f: u16)
    ensures
        f == spec_write_frame(addr, payload),
{
    SpiCommand::write(addr, payload).frame()
}

/// Framing truncates the payload silently: bits above bit 10 never reach
/// the frame.
pub proof fn lemma_write_frame_masks_payload(addr: u8, payload: u16)
    ensures
        spec_write_frame(addr, payload) == spec_write_frame(addr, payload & DATA_MASK),
{
    assert((payload & 0b0000011111111111u16) & 0b0000011111111111u16 == payload
        & 0b0000011111111111u16) by (bit_vector);
}

/// The three parts of a write frame read back exactly: the payload bits are
/// the masked payload, the address bits are the masked address, and the
/// operation bit is 0.
pub proof fn lemma_write_frame_fields(addr: u8, payload: u16)
    ensures
        spec_write_frame(addr, payload) & DATA_MASK == payload & DATA_MASK,
        ((spec_write_frame(addr, payload) >> 11) & 0xF) == (addr & ADDR_MASK) as u16,
        (spec_write_frame(addr, payload) >> 15) == 0,
{
    let a: u16 = (addr & ADDR_MASK) as u16;
    let d: u16 = payload & DATA_MASK;
    assert((((0u16 << 15) | (a << 11) | d) & 0b0000011111111111u16) == d && ((((0u16 << 15) | (a
        << 11) | d) >> 11) & 0xF) == a && (((0u16 << 15) | (a << 11) | d) >> 15) == 0)
        by (bit_vector)
        requires
            a == (addr & 0b00001111u8) as u16,
            d == payload & 0b0000011111111111u16,
    ;
}

/// The three parts of a read frame read back exactly: the payload bits are
/// 0, the address bits are the masked address, and the operation bit is 1.
pub proof fn lemma_read_frame_fields(addr: u8)
    ensures
        spec_read_frame(addr) & DATA_MASK == 0,
        ((spec_read_frame(addr) >> 11) & 0xF) == (addr & ADDR_MASK) as u16,
        (spec_read_frame(addr) >> 15) == 1,
{
    let a: u16 = (addr & ADDR_MASK) as u16;
    let d: u16 = 0u16 & DATA_MASK;
    assert((((1u16 << 15) | (a << 11) | d) & 0b0000011111111111u16) == 0 && ((((1u16 << 15) | (a
        << 11) | d) >> 11) & 0xF) == a && (((1u16 << 15) | (a << 11) | d) >> 15) == 1 && d == 0)
        by (bit_vector)
        requires
            a == (addr & 0b00001111u8) as u16,
            d == 0u16 & 0b0000011111111111u16,
    ;
}

} // verus!
