//! The I2C device handle: an open kernel port plus the currently bound slave
//! address, with the SMBus transaction surface and raw byte-stream access.
//!
//! Every operation maps to exactly one port call; nothing is retried, no
//! argument is validated beyond what the protocol itself fixes, and every
//! failure is the port's error verbatim.

use vstd::prelude::*;
use vstd::slice::slice_to_vec;
use crate::port::{I2CPort, EPROTO};
use crate::smbus::{SmbusReq, SmbusRep, SmbusReply, SmbusRequest, I2C_BLOCK_MAX, SMBUS_BLOCK_MAX};

verus! {

/// Why constructing a device handle failed.  The two categories are kept
/// apart so a caller can tell a bad device path from an address the kernel
/// rejected.
#[derive(Debug, Clone, Copy, PartialEq, Eq, Structural)]
pub enum I2CDeviceOpenError {
    /// The device node could not be opened; carries the error number of the
    /// I/O layer.
    IOError(i32),
    /// Opening succeeded but the kernel rejected the address bind; carries
    /// the kernel's error number.
    NixError(i32),
}

/// The view of a device handle: the port's view and the bound address.
pub struct DeviceView<PV> {
    pub port: PV,
    pub slave_address: u16,
}

/// A handle to one I2C slave device: an exclusively owned port onto the bus
/// and the address the kernel last accepted for it.  The handle cannot be
/// duplicated; dropping it releases the port.
pub struct I2CDevice<P> {
    port: P,
    slave_address: u16,
}

impl<P: I2CPort> View for I2CDevice<P> {
    type V = DeviceView<P::St>;

    closed spec fn view(&self) -> DeviceView<P::St> {
        DeviceView { port: self.port.st(), slave_address: self.slave_address }
    }
}

/// The unit result a write-class transaction reduces to: only an `Ack` reply
/// has the right shape.
pub open spec fn ack_result(rep: SmbusRep) -> Result<(), i32> {
    match rep {
        SmbusRep::Ack => Ok(()),
        _ => Err(EPROTO),
    }
}

/// The byte a byte-read transaction reduces to: only a `Byte` reply has the
/// right shape.
pub open spec fn byte_result(rep: SmbusRep) -> Result<u8, i32> {
    match rep {
        SmbusRep::Byte { value } => Ok(value),
        _ => Err(EPROTO),
    }
}

/// The word a word-read or process-call transaction reduces to: only a
/// `Word` reply has the right shape.
pub open spec fn word_result(rep: SmbusRep) -> Result<u16, i32> {
    match rep {
        SmbusRep::Word { value } => Ok(value),
        _ => Err(EPROTO),
    }
}

/// The bytes a block-read transaction reduces to: only a `Block` reply of at
/// most 32 bytes has the right shape, and its bytes are handed through
/// exactly, with no padding and no truncation.
pub open spec fn block_result(rep: SmbusRep) -> Result<Seq<u8>, i32> {
    match rep {
        SmbusRep::Block { data } => if data.len() <= SMBUS_BLOCK_MAX as int {
            Ok(data)
        } else {
            Err(EPROTO)
        },
        _ => Err(EPROTO),
    }
}

/// Reduce a port reply to the unit result of a write-class transaction.
pub fn ack_of_reply(reply: SmbusReply) -> (r: Result<(), i32>)
    ensures
        r == ack_result(reply@),
{
    match reply {
        SmbusReply::Ack => Ok(()),
        _ => Err(EPROTO),
    }
}

/// Reduce a port reply to the byte a byte-read transaction returns.
pub fn byte_of_reply(reply: SmbusReply) -> (r: Result<u8, i32>)
    ensures
        r == byte_result(reply@),
{
    match reply {
        SmbusReply::Byte { value } => Ok(value),
        _ => Err(EPROTO),
    }
}

/// Reduce a port reply to the word a word-read transaction returns.
pub fn word_of_reply(reply: SmbusReply) -> (r: Result<u16, i32>)
    ensures
        r == word_result(reply@),
{
    match reply {
        SmbusReply::Word { value } => Ok(value),
        _ => Err(EPROTO),
    }
}

/// Reduce a port reply to the bytes a block-read transaction returns.
pub fn block_of_reply(reply: SmbusReply) -> (r: Result<Vec<u8>, i32>)
    ensures
        match block_result(reply@) {
            Ok(s) => r matches Ok(v) && v@ == s,
            Err(e) => r matches Err(x) && x == e,
        },
{
    match reply {
        SmbusReply::Block { data } => if data.len() <= SMBUS_BLOCK_MAX {
            Ok(data)
        } else {
            Err(EPROTO)
        },
        _ => Err(EPROTO),
    }
}

impl<P: I2CPort> I2CDevice<P> {
    /// Open the device node at `path` and bind `slave_address` in one
    /// two-step construction.  A failure to open is reported as `IOError`; a
    /// kernel rejection of the address as `NixError`; no partially usable
    /// handle is ever returned, and on success the recorded address is
    /// exactly the one the kernel accepted.
    pub fn new(path: &str, slave_address: u16) -> (r: Result<I2CDevice<P>, I2CDeviceOpenError>)
        ensures
            match P::open_spec(path@) {
                Err(e) => r == Err::<I2CDevice<P>, _>(I2CDeviceOpenError::IOError(e)),
                Ok(v) => match P::bind_spec(v, slave_address) {
                    Err(e) => r == Err::<I2CDevice<P>, _>(I2CDeviceOpenError::NixError(e)),
                    Ok(v2) => r matches Ok(d) && d@.slave_address == slave_address && d@.port
                        == v2,
                },
            },
    {
        match P::open(path) {
            Ok(port) => Self::from_port(port, slave_address),
            Err(e) => Err(I2CDeviceOpenError::IOError(e)),
        }
    }

    /// Wrap an already open port and bind `slave_address` on it.  A kernel
    /// rejection is reported as `NixError` and consumes the port, exactly as
    /// a failed construction does.
    pub fn from_port(port: P, slave_address: u16) -> (r: Result<
        I2CDevice<P>,
        I2CDeviceOpenError,
    >)
        ensures
            match P::bind_spec(port.st(), slave_address) {
                Err(e) => r == Err::<I2CDevice<P>, _>(I2CDeviceOpenError::NixError(e)),
                Ok(v) => r matches Ok(d) && d@.slave_address == slave_address && d@.port == v,
            },
    {
        let mut device = I2CDevice { port, slave_address: 0 };
        match device.set_slave_address(slave_address) {
            Ok(u) => Ok(device),
            Err(e) => Err(I2CDeviceOpenError::NixError(e)),
        }
    }

    /// Rebind the handle to a new slave address.  On success the recorded
    /// address is updated to match; on failure the kernel's error is handed
    /// through verbatim and the handle, its recorded address included, is
    /// left exactly as it was.
    pub fn set_slave_address(&mut self, slave_address: u16) -> (r: Result<(), i32>)
        ensures
            match P::bind_spec(old(self)@.port, slave_address) {
                Ok(v) => r is Ok && final(self)@.port == v && final(self)@.slave_address
                    == slave_address,
                Err(e) => r matches Err(x) && x == e && final(self)@ == old(self)@,
            },
    {
        match self.port.bind_address(slave_address) {
            Ok(u) => {
                self.slave_address = slave_address;
                Ok(())
            },
            Err(e) => Err(e),
        }
    }

    /// The slave address the kernel last accepted for this handle.
    pub fn slave_address(&self) -> (r: u16)
        ensures
            r == self@.slave_address,
    {
        self.slave_address
    }

    /// Borrow the underlying port, for inspection only.
    pub fn port_ref(&self) -> (r: &P)
        ensures
            r.st() == self@.port,
    {
        &self.port
    }

    /// Read at most `max_len` raw bytes from the device, with no SMBus
    /// framing, against whatever address is bound.  A short read is surfaced
    /// as the bytes actually delivered.
    pub fn read(&mut self, max_len: usize) -> (r: Result<Vec<u8>, i32>)
        ensures
            final(self)@.slave_address == old(self)@.slave_address,
            final(self)@.port == P::read_spec(old(self)@.port, max_len as nat).1,
            match P::read_spec(old(self)@.port, max_len as nat).0 {
                Ok(s) => r matches Ok(v) && v@ == s && v@.len() <= max_len,
                Err(e) => r matches Err(x) && x == e,
            },
    {
        self.port.read_stream(max_len)
    }

    /// Write raw bytes to the device, with no SMBus framing.  A partial
    /// write is surfaced as the count actually transferred.
    pub fn write(&mut self, data: &[u8]) -> (r: Result<usize, i32>)
        ensures
            final(self)@.slave_address == old(self)@.slave_address,
            final(self)@.port == P::write_spec(old(self)@.port, data@).1,
            match P::write_spec(old(self)@.port, data@).0 {
                Ok(n) => r matches Ok(m) && m as int == n && m <= data@.len(),
                Err(e) => r matches Err(x) && x == e,
            },
    {
        self.port.write_stream(data)
    }

    /// Flush the raw byte stream.
    pub fn flush(&mut self) -> (r: Result<(), i32>)
        ensures
            final(self)@.slave_address == old(self)@.slave_address,
            final(self)@.port == P::flush_spec(old(self)@.port).1,
            match P::flush_spec(old(self)@.port).0 {
                Ok(u) => r is Ok,
                Err(e) => r matches Err(x) && x == e,
            },
    {
        self.port.flush_stream()
    }

    /// Send a single bit in place of the read/write direction bit, in one
    /// SMBus quick transaction.
    pub fn smbus_write_quick(&mut self, bit: bool) -> (r: Result<(), i32>)
        ensures
            final(self)@.slave_address == old(self)@.slave_address,
            final(self)@.port == P::transact_spec(old(self)@.port, SmbusReq::Quick { bit }).1,
            match P::transact_spec(old(self)@.port, SmbusReq::Quick { bit }).0 {
                Ok(rep) => r == ack_result(rep),
                Err(e) => r matches Err(x) && x == e,
            },
    {
        match self.port.transact(&SmbusRequest::Quick { bit }) {
            Ok(reply) => ack_of_reply(reply),
            Err(e) => Err(e),
        }
    }

    /// Read one byte without selecting a register: whatever register the
    /// device's internal pointer currently references.
    pub fn smbus_read_byte(&mut self) -> (r: Result<u8, i32>)
        ensures
            final(self)@.slave_address == old(self)@.slave_address,
            final(self)@.port == P::transact_spec(old(self)@.port, SmbusReq::ReadByte).1,
            match P::transact_spec(old(self)@.port, SmbusReq::ReadByte).0 {
                Ok(rep) => r == byte_result(rep),
                Err(e) => r matches Err(x) && x == e,
            },
    {
        match self.port.transact(&SmbusRequest::ReadByte) {
            Ok(reply) => byte_of_reply(reply),
            Err(e) => Err(e),
        }
    }

    /// Write one byte without selecting a register.
    pub fn smbus_write_byte(&mut self, value: u8) -> (r: Result<(), i32>)
        ensures
            final(self)@.slave_address == old(self)@.slave_address,
            final(self)@.port == P::transact_spec(
                old(self)@.port,
                SmbusReq::WriteByte { value },
            ).1,
            match P::transact_spec(old(self)@.port, SmbusReq::WriteByte { value }).0 {
                Ok(rep) => r == ack_result(rep),
                Err(e) => r matches Err(x) && x == e,
            },
    {
        match self.port.transact(&SmbusRequest::WriteByte { value }) {
            Ok(reply) => ack_of_reply(reply),
            Err(e) => Err(e),
        }
    }

    /// Read one byte from the register the command byte selects.
    pub fn smbus_read_byte_data(&mut self, register: u8) -> (r: Result<u8, i32>)
        ensures
            final(self)@.slave_address == old(self)@.slave_address,
            final(self)@.port == P::transact_spec(
                old(self)@.port,
                SmbusReq::ReadByteData { register },
            ).1,
            match P::transact_spec(old(self)@.port, SmbusReq::ReadByteData { register }).0 {
                Ok(rep) => r == byte_result(rep),
                Err(e) => r matches Err(x) && x == e,
            },
    {
        match self.port.transact(&SmbusRequest::ReadByteData { register }) {
            Ok(reply) => byte_of_reply(reply),
            Err(e) => Err(e),
        }
    }

    /// Write one byte to the register the command byte selects.
    pub fn smbus_write_byte_data(&mut self, register: u8, value: u8) -> (r: Result<(), i32>)
        ensures
            final(self)@.slave_address == old(self)@.slave_address,
            final(self)@.port == P::transact_spec(
                old(self)@.port,
                SmbusReq::WriteByteData { register, value },
            ).1,
            match P::transact_spec(old(self)@.port, SmbusReq::WriteByteData { register, value }).0 {
                Ok(rep) => r == ack_result(rep),
                Err(e) => r matches Err(x) && x == e,
            },
    {
        match self.port.transact(&SmbusRequest::WriteByteData { register, value }) {
            Ok(reply) => ack_of_reply(reply),
            Err(e) => Err(e),
        }
    }

    /// Read a 16-bit word from a register, in the byte order the kernel
    /// convention fixes; nothing is reordered locally.
    pub fn smbus_read_word_data(&mut self, register: u8) -> (r: Result<u16, i32>)
        ensures
            final(self)@.slave_address == old(self)@.slave_address,
            final(self)@.port == P::transact_spec(
                old(self)@.port,
                SmbusReq::ReadWordData { register },
            ).1,
            match P::transact_spec(old(self)@.port, SmbusReq::ReadWordData { register }).0 {
                Ok(rep) => r == word_result(rep),
                Err(e) => r matches Err(x) && x == e,
            },
    {
        match self.port.transact(&SmbusRequest::ReadWordData { register }) {
            Ok(reply) => word_of_reply(reply),
            Err(e) => Err(e),
        }
    }

    /// Write a 16-bit word to a register.
    pub fn smbus_write_word_data(&mut self, register: u8, value: u16) -> (r: Result<(), i32>)
        ensures
            final(self)@.slave_address == old(self)@.slave_address,
            final(self)@.port == P::transact_spec(
                old(self)@.port,
                SmbusReq::WriteWordData { register, value },
            ).1,
            match P::transact_spec(old(self)@.port, SmbusReq::WriteWordData { register, value }).0 {
                Ok(rep) => r == ack_result(rep),
                Err(e) => r matches Err(x) && x == e,
            },
    {
        match self.port.transact(&SmbusRequest::WriteWordData { register, value }) {
            Ok(reply) => ack_of_reply(reply),
            Err(e) => Err(e),
        }
    }

    /// Write a 16-bit word to a register and read 16 bits back, atomically
    /// from the bus's point of view: one process-call transaction.
    pub fn smbus_process_word(&mut self, register: u8, value: u16) -> (r: Result<u16, i32>)
        ensures
            final(self)@.slave_address == old(self)@.slave_address,
            final(self)@.port == P::transact_spec(
                old(self)@.port,
                SmbusReq::ProcessCall { register, value },
            ).1,
            match P::transact_spec(old(self)@.port, SmbusReq::ProcessCall { register, value }).0 {
                Ok(rep) => r == word_result(rep),
                Err(e) => r matches Err(x) && x == e,
            },
    {
        match self.port.transact(&SmbusRequest::ProcessCall { register, value }) {
            Ok(reply) => word_of_reply(reply),
            Err(e) => Err(e),
        }
    }

    /// Read a device-counted block of up to 32 bytes from a register.  The
    /// returned bytes are exactly the block the device reported: the length
    /// matches the count byte, with no padding and no silent truncation.
    pub fn smbus_read_block_data(&mut self, register: u8) -> (r: Result<Vec<u8>, i32>)
        ensures
            final(self)@.slave_address == old(self)@.slave_address,
            final(self)@.port == P::transact_spec(
                old(self)@.port,
                SmbusReq::ReadBlockData { register },
            ).1,
            match P::transact_spec(old(self)@.port, SmbusReq::ReadBlockData { register }).0 {
                Ok(rep) => match block_result(rep) {
                    Ok(s) => r matches Ok(v) && v@ == s && v@.len() <= SMBUS_BLOCK_MAX as int,
                    Err(e) => r matches Err(x) && x == e,
                },
                Err(e) => r matches Err(x) && x == e,
            },
    {
        match self.port.transact(&SmbusRequest::ReadBlockData { register }) {
            Ok(reply) => block_of_reply(reply),
            Err(e) => Err(e),
        }
    }

    /// Write a block of up to 32 bytes to a register; the caller-supplied
    /// length is sent verbatim as the count byte.
    pub fn smbus_write_block_data(&mut self, register: u8, values: &[u8]) -> (r: Result<(), i32>)
        requires
            values@.len() <= SMBUS_BLOCK_MAX as int,
        ensures
            final(self)@.slave_address == old(self)@.slave_address,
            final(self)@.port == P::transact_spec(
                old(self)@.port,
                SmbusReq::WriteBlockData { register, data: values@ },
            ).1,
            match P::transact_spec(
                old(self)@.port,
                SmbusReq::WriteBlockData { register, data: values@ },
            ).0 {
                Ok(rep) => r == ack_result(rep),
                Err(e) => r matches Err(x) && x == e,
            },
    {
        let data = slice_to_vec(values);
        match self.port.transact(&SmbusRequest::WriteBlockData { register, data }) {
            Ok(reply) => ack_of_reply(reply),
            Err(e) => Err(e),
        }
    }

    /// Write an I2C (non-counted) block of 1 to 31 bytes to a register.
    /// Despite the process-call flavour of its name this operation only
    /// performs the write side; no response data is read back.
    pub fn smbus_process_block(&mut self, register: u8, values: &[u8]) -> (r: Result<(), i32>)
        requires
            1 <= values@.len() <= I2C_BLOCK_MAX as int,
        ensures
            final(self)@.slave_address == old(self)@.slave_address,
            final(self)@.port == P::transact_spec(
                old(self)@.port,
                SmbusReq::WriteI2cBlockData { register, data: values@ },
            ).1,
            match P::transact_spec(
                old(self)@.port,
                SmbusReq::WriteI2cBlockData { register, data: values@ },
            ).0 {
                Ok(rep) => r == ack_result(rep),
                Err(e) => r matches Err(x) && x == e,
            },
    {
        let data = slice_to_vec(values);
        match self.port.transact(&SmbusRequest::WriteI2cBlockData { register, data }) {
            Ok(reply) => ack_of_reply(reply),
            Err(e) => Err(e),
        }
    }
}

} // verus!
