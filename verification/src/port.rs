//! The kernel port: the narrow interface behind which the platform's
//! address-bind and SMBus-transaction ioctls live.
//!
//! The device handle is generic over this trait, so the verified transaction
//! logic knows nothing of ioctl numbers or struct layouts.  Every implementor
//! describes its behaviour with spec functions over its view; the exec
//! methods are then pinned to those spec functions, which is what lets the
//! handle's own contracts be exact for any verified port, such as the mock
//! port of this crate.

use vstd::prelude::*;
use vstd::pervasive::arbitrary;
use crate::smbus::{SmbusReq, SmbusRep, SmbusReply, SmbusRequest};

verus! {

/// POSIX-style error number: no such file or directory.
pub const ENOENT: i32 = 2;

/// POSIX-style error number: invalid argument.
pub const EINVAL: i32 = 22;

/// POSIX-style error number: protocol error.  The handle returns it when a
/// port answers a transaction with a reply of the wrong shape.
pub const EPROTO: i32 = 71;

/// POSIX-style error number: operation not supported.
pub const EOPNOTSUPP: i32 = 95;

/// An open port onto one I2C bus: the set of kernel primitives the device
/// handle needs, stripped to two request classes (bind an address, run one
/// SMBus transaction) plus the raw byte-stream primitives of the underlying
/// character device.
///
/// The behaviour of a port is given by its spec functions, all over the
/// port's abstract state.  A failed bind must leave the port unchanged, and
/// a stream operation must report the count it actually transferred, never
/// more than was offered.
pub trait I2CPort: Sized {
    /// The port's abstract state, which the spec functions below step.
    type St;

    /// The abstract state a port value is in.  An implementor outside the
    /// verifier may leave this and the other spec functions at their
    /// defaults, of which nothing is known.
    open spec fn st(&self) -> Self::St {
        arbitrary()
    }

    /// What opening `path` yields: the state of a fresh port, or an error
    /// number when no port can be had at that path.
    open spec fn open_spec(path: Seq<char>) -> Result<Self::St, i32> {
        arbitrary()
    }

    /// What binding `address` does to a port in state `pre`: the new state on
    /// success, or the kernel's error number when it rejects the address.
    open spec fn bind_spec(pre: Self::St, address: u16) -> Result<Self::St, i32> {
        arbitrary()
    }

    /// What one SMBus transaction does: the reply (or error number) and the
    /// port's next state.
    open spec fn transact_spec(pre: Self::St, req: SmbusReq) -> (Result<SmbusRep, i32>, Self::St) {
        arbitrary()
    }

    /// What a raw stream read of at most `max` bytes yields, and the port's
    /// next state.
    open spec fn read_spec(pre: Self::St, max: nat) -> (Result<Seq<u8>, i32>, Self::St) {
        arbitrary()
    }

    /// What a raw stream write of `data` transfers (the count actually
    /// written), and the port's next state.
    open spec fn write_spec(pre: Self::St, data: Seq<u8>) -> (Result<int, i32>, Self::St) {
        arbitrary()
    }

    /// What flushing the stream yields, and the port's next state.
    open spec fn flush_spec(pre: Self::St) -> (Result<(), i32>, Self::St) {
        arbitrary()
    }

    /// Open the port at `path` for read and write access.
    fn open(path: &str) -> (r: Result<Self, i32>)
        ensures
            match Self::open_spec(path@) {
                Ok(v) => r matches Ok(p) && p.st() == v,
                Err(e) => r matches Err(x) && x == e,
            },
    ;

    /// Issue the address-bind request for `address`.
    fn bind_address(&mut self, address: u16) -> (r: Result<(), i32>)
        ensures
            match Self::bind_spec(old(self).st(), address) {
                Ok(v) => r is Ok && final(self).st() == v,
                Err(e) => r matches Err(x) && x == e && final(self).st() == old(self).st(),
            },
    ;

    /// Execute exactly one SMBus transaction against the bound address.
    fn transact(&mut self, req: &SmbusRequest) -> (r: Result<SmbusReply, i32>)
        ensures
            final(self).st() == Self::transact_spec(old(self).st(), req@).1,
            match Self::transact_spec(old(self).st(), req@).0 {
                Ok(rep) => r matches Ok(x) && x@ == rep,
                Err(e) => r matches Err(x) && x == e,
            },
    ;

    /// Read at most `max_len` raw bytes from the stream; a short read is
    /// reported as the bytes actually delivered.
    fn read_stream(&mut self, max_len: usize) -> (r: Result<Vec<u8>, i32>)
        ensures
            final(self).st() == Self::read_spec(old(self).st(), max_len as nat).1,
            match Self::read_spec(old(self).st(), max_len as nat).0 {
                Ok(s) => r matches Ok(v) && v@ == s,
                Err(e) => r matches Err(x) && x == e,
            },
            r matches Ok(v) ==> v@.len() <= max_len,
    ;

    /// Write raw bytes to the stream; a partial write is reported as the
    /// count actually transferred, never silently retried.
    fn write_stream(&mut self, data: &[u8]) -> (r: Result<usize, i32>)
        ensures
            final(self).st() == Self::write_spec(old(self).st(), data@).1,
            match Self::write_spec(old(self).st(), data@).0 {
                Ok(n) => r matches Ok(m) && m as int == n,
                Err(e) => r matches Err(x) && x == e,
            },
            r matches Ok(m) ==> m <= data@.len(),
    ;

    /// Flush the stream.
    fn flush_stream(&mut self) -> (r: Result<(), i32>)
        ensures
            final(self).st() == Self::flush_spec(old(self).st()).1,
            match Self::flush_spec(old(self).st()).0 {
                Ok(u) => r is Ok,
                Err(e) => r matches Err(x) && x == e,
            },
    ;
}

} // verus!
