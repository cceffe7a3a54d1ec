//! Verified core of a Linux I2C/SMBus device-handle library.
//!
//! The library models the SMBus transaction set (quick, byte, word, block and
//! process-call transactions) and the device handle that owns an open bus
//! port and a bound slave address.  The kernel ioctl boundary is abstracted
//! as a port trait; a verified in-memory mock port exercises the whole stack.

pub mod device;
pub mod mock;
pub mod port;
pub mod smbus;
