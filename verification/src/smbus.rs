//! The SMBus transaction vocabulary: the request a device handle hands to the
//! kernel port and the reply the port hands back, together with their
//! mathematical views.

use vstd::prelude::*;

verus! {

/// Largest payload an SMBus block transaction can carry.
pub const SMBUS_BLOCK_MAX: usize = 32;

/// Largest payload an I2C (non-counted) block write can carry.
pub const I2C_BLOCK_MAX: usize = 31;

/// One SMBus transaction, as handed to the kernel port.  Each variant is one
/// size class of the protocol; the register, where present, is the command
/// byte that selects a device register.
#[allow(inconsistent_fields)]
pub enum SmbusRequest {
    /// A single bit sent in place of the read/write direction bit.
    Quick { bit: bool },
    /// Read one byte, no register selected.
    ReadByte,
    /// Write one byte, no register selected.
    WriteByte { value: u8 },
    /// Read one byte from a register.
    ReadByteData { register: u8 },
    /// Write one byte to a register.
    WriteByteData { register: u8, value: u8 },
    /// Read a 16-bit word from a register.
    ReadWordData { register: u8 },
    /// Write a 16-bit word to a register.
    WriteWordData { register: u8, value: u16 },
    /// Write a 16-bit word to a register and read 16 bits back in the same
    /// bus transaction.
    ProcessCall { register: u8, value: u16 },
    /// Read a device-counted block of up to 32 bytes from a register.
    ReadBlockData { register: u8 },
    /// Write a block of up to 32 bytes to a register; the length is sent
    /// verbatim as the count byte.
    WriteBlockData { register: u8, data: Vec<u8> },
    /// Write an I2C (non-counted) block of 1 to 31 bytes to a register.
    WriteI2cBlockData { register: u8, data: Vec<u8> },
}

/// Spec-level form of an [`SmbusRequest`]: block payloads become sequences.
#[allow(inconsistent_fields)]
pub enum SmbusReq {
    Quick { bit: bool },
    ReadByte,
    WriteByte { value: u8 },
    ReadByteData { register: u8 },
    WriteByteData { register: u8, value: u8 },
    ReadWordData { register: u8 },
    WriteWordData { register: u8, value: u16 },
    ProcessCall { register: u8, value: u16 },
    ReadBlockData { register: u8 },
    WriteBlockData { register: u8, data: Seq<u8> },
    WriteI2cBlockData { register: u8, data: Seq<u8> },
}

impl View for SmbusRequest {
    type V = SmbusReq;

    open spec fn view(&self) -> SmbusReq {
        match self {
            SmbusRequest::Quick { bit } => SmbusReq::Quick { bit: *bit },
            SmbusRequest::ReadByte => SmbusReq::ReadByte,
            SmbusRequest::WriteByte { value } => SmbusReq::WriteByte { value: *value },
            SmbusRequest::ReadByteData { register } => (SmbusReq::ReadByteData {
                register: *register,
            }),
            SmbusRequest::WriteByteData { register, value } => (SmbusReq::WriteByteData {
                register: *register,
                value: *value,
            }),
            SmbusRequest::ReadWordData { register } => (SmbusReq::ReadWordData {
                register: *register,
            }),
            SmbusRequest::WriteWordData { register, value } => (SmbusReq::WriteWordData {
                register: *register,
                value: *value,
            }),
            SmbusRequest::ProcessCall { register, value } => (SmbusReq::ProcessCall {
                register: *register,
                value: *value,
            }),
            SmbusRequest::ReadBlockData { register } => (SmbusReq::ReadBlockData {
                register: *register,
            }),
            SmbusRequest::WriteBlockData { register, data } => (SmbusReq::WriteBlockData {
                register: *register,
                data: data@,
            }),
            SmbusRequest::WriteI2cBlockData { register, data } => (SmbusReq::WriteI2cBlockData {
                register: *register,
                data: data@,
            }),
        }
    }
}

/// What the kernel port hands back for one successful SMBus transaction.
#[allow(inconsistent_fields)]
pub enum SmbusReply {
    /// A write-class transaction completed; no data travels back.
    Ack,
    /// One byte read back.
    Byte { value: u8 },
    /// One 16-bit word read back.
    Word { value: u16 },
    /// A device-counted block read back, already cut to the reported count.
    Block { data: Vec<u8> },
}

/// Spec-level form of an [`SmbusReply`].
#[allow(inconsistent_fields)]
pub enum SmbusRep {
    Ack,
    Byte { value: u8 },
    Word { value: u16 },
    Block { data: Seq<u8> },
}

impl View for SmbusReply {
    type V = SmbusRep;

    open spec fn view(&self) -> SmbusRep {
        match self {
            SmbusReply::Ack => SmbusRep::Ack,
            SmbusReply::Byte { value } => SmbusRep::Byte { value: *value },
            SmbusReply::Word { value } => SmbusRep::Word { value: *value },
            SmbusReply::Block { data } => SmbusRep::Block { data: data@ },
        }
    }
}

} // verus!
