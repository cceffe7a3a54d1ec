//! A verified in-memory kernel port: one mock I2C device behind the port
//! interface, with a byte, word and block register store, a transaction
//! counter as an instrumentation point, and a quick-command-only mode.
//!
//! The mock's whole behaviour is the spec-level model below (`mock_open_spec`,
//! `mock_bind_spec`, `mock_reply`, `mock_next`, ...); its exec methods are
//! verified against that model through the port trait, so a device handle
//! driven against the mock has its end-to-end behaviour pinned down exactly.

use vstd::prelude::*;
use vstd::slice::{slice_subrange, slice_to_vec};
use crate::port::{I2CPort, EINVAL, ENOENT, EOPNOTSUPP};
use crate::smbus::{SmbusReq, SmbusRep, SmbusReply, SmbusRequest, I2C_BLOCK_MAX, SMBUS_BLOCK_MAX};

verus! {

/// Number of registers the mock device models: one per command byte.
pub const MOCK_REG_COUNT: usize = 256;

/// The mock kernel's state, as the contracts speak of it.
#[verifier::ext_equal]
pub struct MockPortView {
    /// The byte behind the plain (register-less) byte transactions.
    pub plain_byte: u8,
    /// One byte register per command byte.
    pub byte_regs: Seq<u8>,
    /// One 16-bit register per command byte.
    pub word_regs: Seq<u16>,
    /// One block register per command byte, each at most 32 bytes.
    pub block_regs: Seq<Seq<u8>>,
    /// The slave address the mock kernel last accepted.
    pub bound_address: u16,
    /// When set, the mock device answers only quick transactions.
    pub quick_only: bool,
    /// Bytes waiting to be taken by raw stream reads.
    pub incoming: Seq<u8>,
    /// Bytes received so far through raw stream writes.
    pub outgoing: Seq<u8>,
    /// How many SMBus transactions were issued, successful or not; the
    /// counter saturates rather than wrap.
    pub transactions: u64,
}

/// Which device-node paths exist in the mock filesystem.
pub open spec fn mock_path_exists(path: Seq<char>) -> bool {
    ||| path == "/mock/i2c-0"@
    ||| path == "/mock/i2c-1"@
    ||| path == "/mock/quick"@
}

/// The one mock path whose device answers only quick transactions.
pub open spec fn mock_quick_only_path(path: Seq<char>) -> bool {
    path == "/mock/quick"@
}

/// Which slave addresses the mock kernel accepts: the 7-bit range.
pub open spec fn mock_accepts_address(address: u16) -> bool {
    address < 0x80
}

/// The state of a freshly opened mock port: all registers zero, nothing
/// streamed, no transactions counted.
pub open spec fn mock_init(path: Seq<char>) -> MockPortView {
    MockPortView {
        plain_byte: 0,
        byte_regs: Seq::new(MOCK_REG_COUNT as nat, |i: int| 0u8),
        word_regs: Seq::new(MOCK_REG_COUNT as nat, |i: int| 0u16),
        block_regs: Seq::new(MOCK_REG_COUNT as nat, |i: int| Seq::<u8>::empty()),
        bound_address: 0,
        quick_only: mock_quick_only_path(path),
        incoming: Seq::empty(),
        outgoing: Seq::empty(),
        transactions: 0,
    }
}

/// Well-formedness of a mock state: full register files, blocks within the
/// protocol bound.
pub open spec fn mock_wf(v: MockPortView) -> bool {
    &&& v.byte_regs.len() == MOCK_REG_COUNT as int
    &&& v.word_regs.len() == MOCK_REG_COUNT as int
    &&& v.block_regs.len() == MOCK_REG_COUNT as int
    &&& forall|i: int|
        0 <= i < MOCK_REG_COUNT as int ==> (#[trigger] v.block_regs[i]).len()
            <= SMBUS_BLOCK_MAX as int
}

/// What opening a path yields from the mock kernel.
pub open spec fn mock_open_spec(path: Seq<char>) -> Result<MockPortView, i32> {
    if mock_path_exists(path) {
        Ok(mock_init(path))
    } else {
        Err(ENOENT)
    }
}

/// What the mock kernel's address bind does: record a 7-bit address, reject
/// anything else and change nothing.
pub open spec fn mock_bind_spec(pre: MockPortView, address: u16) -> Result<MockPortView, i32> {
    if mock_accepts_address(address) {
        Ok(MockPortView { bound_address: address, ..pre })
    } else {
        Err(EINVAL)
    }
}

/// What a process-call transaction against the mock device echoes back: the
/// written word plus one, wrapping.
pub open spec fn mock_echo(value: u16) -> u16 {
    if value < u16::MAX {
        (value + 1) as u16
    } else {
        0
    }
}

/// One step of the saturating transaction counter.
pub open spec fn mock_bump(pre: MockPortView) -> MockPortView {
    MockPortView {
        transactions: if pre.transactions < u64::MAX {
            (pre.transactions + 1) as u64
        } else {
            u64::MAX
        },
        ..pre
    }
}

/// The reply the mock kernel gives for one SMBus transaction in state `pre`.
pub open spec fn mock_reply(pre: MockPortView, req: SmbusReq) -> Result<SmbusRep, i32> {
    if pre.quick_only && !(req is Quick) {
        Err(EOPNOTSUPP)
    } else {
        match req {
            SmbusReq::Quick { bit } => Ok(SmbusRep::Ack),
            SmbusReq::ReadByte => Ok(SmbusRep::Byte { value: pre.plain_byte }),
            SmbusReq::WriteByte { value } => Ok(SmbusRep::Ack),
            SmbusReq::ReadByteData { register } => Ok(
                SmbusRep::Byte { value: pre.byte_regs[register as int] },
            ),
            SmbusReq::WriteByteData { register, value } => Ok(SmbusRep::Ack),
            SmbusReq::ReadWordData { register } => Ok(
                SmbusRep::Word { value: pre.word_regs[register as int] },
            ),
            SmbusReq::WriteWordData { register, value } => Ok(SmbusRep::Ack),
            SmbusReq::ProcessCall { register, value } => Ok(
                SmbusRep::Word { value: mock_echo(value) },
            ),
            SmbusReq::ReadBlockData { register } => Ok(
                SmbusRep::Block { data: pre.block_regs[register as int] },
            ),
            SmbusReq::WriteBlockData { register, data } => if data.len() <= SMBUS_BLOCK_MAX as int {
                Ok(SmbusRep::Ack)
            } else {
                Err(EINVAL)
            },
            SmbusReq::WriteI2cBlockData { register, data } => if 1 <= data.len() && data.len()
                <= I2C_BLOCK_MAX as int {
                Ok(SmbusRep::Ack)
            } else {
                Err(EINVAL)
            },
        }
    }
}

/// The mock kernel's state after one SMBus transaction: the counter always
/// steps, and a successful write-class transaction stores its payload.
pub open spec fn mock_next(pre: MockPortView, req: SmbusReq) -> MockPortView {
    let b = mock_bump(pre);
    if pre.quick_only && !(req is Quick) {
        b
    } else {
        match req {
            SmbusReq::WriteByte { value } => MockPortView { plain_byte: value, ..b },
            SmbusReq::WriteByteData { register, value } => MockPortView {
                byte_regs: b.byte_regs.update(register as int, value),
                ..b
            },
            SmbusReq::WriteWordData { register, value } => MockPortView {
                word_regs: b.word_regs.update(register as int, value),
                ..b
            },
            SmbusReq::WriteBlockData { register, data } => if data.len() <= SMBUS_BLOCK_MAX as int {
                MockPortView { block_regs: b.block_regs.update(register as int, data), ..b }
            } else {
                b
            },
            SmbusReq::WriteI2cBlockData { register, data } => if 1 <= data.len() && data.len()
                <= I2C_BLOCK_MAX as int {
                MockPortView { block_regs: b.block_regs.update(register as int, data), ..b }
            } else {
                b
            },
            _ => b,
        }
    }
}

/// What a raw stream read of at most `max` bytes takes from the mock: the
/// front of the incoming queue.
pub open spec fn mock_read_spec(pre: MockPortView, max: nat) -> (Result<Seq<u8>, i32>, MockPortView) {
    let n = if pre.incoming.len() <= max {
        pre.incoming.len() as int
    } else {
        max as int
    };
    (Ok(pre.incoming.take(n)), MockPortView { incoming: pre.incoming.skip(n), ..pre })
}

/// What a raw stream write does to the mock: every byte is accepted and
/// appended to the outgoing record.
pub open spec fn mock_write_spec(pre: MockPortView, data: Seq<u8>) -> (Result<int, i32>, MockPortView) {
    (Ok(data.len() as int), MockPortView { outgoing: pre.outgoing + data, ..pre })
}

/// Flushing the mock stream succeeds and changes nothing.
pub open spec fn mock_flush_spec(pre: MockPortView) -> (Result<(), i32>, MockPortView) {
    (Ok(()), pre)
}

/// The mock port itself: the exec state the spec model describes.
pub struct MockI2CPort {
    plain_byte: u8,
    byte_regs: Vec<u8>,
    word_regs: Vec<u16>,
    block_regs: Vec<Vec<u8>>,
    bound_address: u16,
    quick_only: bool,
    incoming: Vec<u8>,
    outgoing: Vec<u8>,
    transactions: u64,
}

impl View for MockI2CPort {
    type V = MockPortView;

    closed spec fn view(&self) -> MockPortView {
        MockPortView {
            plain_byte: self.plain_byte,
            byte_regs: self.byte_regs@,
            word_regs: self.word_regs@,
            block_regs: self.block_regs@.map_values(|b: Vec<u8>| b@),
            bound_address: self.bound_address,
            quick_only: self.quick_only,
            incoming: self.incoming@,
            outgoing: self.outgoing@,
            transactions: self.transactions,
        }
    }
}

impl MockI2CPort {
    #[verifier::type_invariant]
    closed spec fn full_reg_files(self) -> bool {
        &&& self.byte_regs@.len() == MOCK_REG_COUNT as int
        &&& self.word_regs@.len() == MOCK_REG_COUNT as int
        &&& self.block_regs@.len() == MOCK_REG_COUNT as int
    }

    /// The instrumentation point: how many SMBus transactions this port has
    /// carried, successful or failed.
    pub fn transaction_count(&self) -> (r: u64)
        ensures
            r == self@.transactions,
    {
        self.transactions
    }

    /// The bytes raw stream writes have delivered so far.
    pub fn outgoing_bytes(&self) -> (r: &Vec<u8>)
        ensures
            r@ == self@.outgoing,
    {
        &self.outgoing
    }

    /// Queue bytes for raw stream reads to pick up.
    pub fn push_incoming(&mut self, data: &[u8])
        ensures
            final(self)@ == (MockPortView { incoming: old(self)@.incoming + data@, ..old(self)@ }),
    {
        proof {
            use_type_invariant(&*self);
        }
        let mut combined = slice_to_vec(self.incoming.as_slice());
        let mut extra = slice_to_vec(data);
        combined.append(&mut extra);
        self.incoming = combined;
    }

    fn step_counter(&mut self)
        ensures
            final(self)@ == mock_bump(old(self)@),
            final(self).byte_regs == old(self).byte_regs,
            final(self).word_regs == old(self).word_regs,
            final(self).block_regs == old(self).block_regs,
    {
        proof {
            use_type_invariant(&*self);
        }
        if self.transactions < u64::MAX {
            self.transactions = self.transactions + 1;
        }
    }
}

fn filled_bytes() -> (r: Vec<u8>)
    ensures
        r@ == (Seq::new(MOCK_REG_COUNT as nat, |i: int| 0u8)),
{
    let mut r: Vec<u8> = Vec::new();
    let mut i: usize = 0;
    while i < MOCK_REG_COUNT
        invariant
            i <= MOCK_REG_COUNT,
            r@.len() == i as int,
            forall|j: int| 0 <= j < i as int ==> r@[j] == 0u8,
        decreases MOCK_REG_COUNT - i,
    {
        r.push(0);
        i = i + 1;
    }
    proof {
        assert(r@ =~= Seq::new(MOCK_REG_COUNT as nat, |i: int| 0u8));
    }
    r
}

fn filled_words() -> (r: Vec<u16>)
    ensures
        r@ == (Seq::new(MOCK_REG_COUNT as nat, |i: int| 0u16)),
{
    let mut r: Vec<u16> = Vec::new();
    let mut i: usize = 0;
    while i < MOCK_REG_COUNT
        invariant
            i <= MOCK_REG_COUNT,
            r@.len() == i as int,
            forall|j: int| 0 <= j < i as int ==> r@[j] == 0u16,
        decreases MOCK_REG_COUNT - i,
    {
        r.push(0);
        i = i + 1;
    }
    proof {
        assert(r@ =~= Seq::new(MOCK_REG_COUNT as nat, |i: int| 0u16));
    }
    r
}

fn filled_blocks() -> (r: Vec<Vec<u8>>)
    ensures
        r@.len() == MOCK_REG_COUNT as int,
        r@.map_values(|b: Vec<u8>| b@) == (Seq::new(
            MOCK_REG_COUNT as nat,
            |i: int| Seq::<u8>::empty(),
        )),
{
    let mut r: Vec<Vec<u8>> = Vec::new();
    let mut i: usize = 0;
    while i < MOCK_REG_COUNT
        invariant
            i <= MOCK_REG_COUNT,
            r@.len() == i as int,
            forall|j: int| 0 <= j < i as int ==> (#[trigger] r@[j])@ == Seq::<u8>::empty(),
        decreases MOCK_REG_COUNT - i,
    {
        r.push(Vec::new());
        i = i + 1;
    }
    proof {
        assert(r@.map_values(|b: Vec<u8>| b@) =~= Seq::new(
            MOCK_REG_COUNT as nat,
            |i: int| Seq::<u8>::empty(),
        ));
    }
    r
}

impl I2CPort for MockI2CPort {
    type St = MockPortView;

    open spec fn st(&self) -> MockPortView {
        self@
    }

    open spec fn open_spec(path: Seq<char>) -> Result<MockPortView, i32> {
        mock_open_spec(path)
    }

    open spec fn bind_spec(pre: MockPortView, address: u16) -> Result<MockPortView, i32> {
        mock_bind_spec(pre, address)
    }

    open spec fn transact_spec(pre: MockPortView, req: SmbusReq) -> (Result<SmbusRep, i32>, MockPortView) {
        (mock_reply(pre, req), mock_next(pre, req))
    }

    open spec fn read_spec(pre: MockPortView, max: nat) -> (Result<Seq<u8>, i32>, MockPortView) {
        mock_read_spec(pre, max)
    }

    open spec fn write_spec(pre: MockPortView, data: Seq<u8>) -> (Result<int, i32>, MockPortView) {
        mock_write_spec(pre, data)
    }

    open spec fn flush_spec(pre: MockPortView) -> (Result<(), i32>, MockPortView) {
        mock_flush_spec(pre)
    }

    fn open(path: &str) -> (r: Result<Self, i32>) {
        let p = path.to_owned();
        let exists = p == "/mock/i2c-0".to_owned() || p == "/mock/i2c-1".to_owned() || p
            == "/mock/quick".to_owned();
        if exists {
            let quick_only = p == "/mock/quick".to_owned();
            let port = MockI2CPort {
                plain_byte: 0,
                byte_regs: filled_bytes(),
                word_regs: filled_words(),
                block_regs: filled_blocks(),
                bound_address: 0,
                quick_only,
                incoming: Vec::new(),
                outgoing: Vec::new(),
                transactions: 0,
            };
            proof {
                assert(port@ =~= mock_init(path@));
            }
            Ok(port)
        } else {
            Err(ENOENT)
        }
    }

    fn bind_address(&mut self, address: u16) -> (r: Result<(), i32>) {
        proof {
            use_type_invariant(&*self);
        }
        if address < 0x80 {
            self.bound_address = address;
            Ok(())
        } else {
            Err(EINVAL)
        }
    }

    fn transact(&mut self, req: &SmbusRequest) -> (r: Result<SmbusReply, i32>) {
        proof {
            use_type_invariant(&*self);
        }
        self.step_counter();
        let is_quick = match req {
            SmbusRequest::Quick { .. } => true,
            _ => false,
        };
        if self.quick_only && !is_quick {
            return Err(EOPNOTSUPP);
        }
        match req {
            SmbusRequest::Quick { bit } => Ok(SmbusReply::Ack),
            SmbusRequest::ReadByte => Ok(SmbusReply::Byte { value: self.plain_byte }),
            SmbusRequest::WriteByte { value } => {
                self.plain_byte = *value;
                Ok(SmbusReply::Ack)
            },
            SmbusRequest::ReadByteData { register } => Ok(
                SmbusReply::Byte { value: self.byte_regs[*register as usize] },
            ),
            SmbusRequest::WriteByteData { register, value } => {
                self.byte_regs[*register as usize] = *value;
                Ok(SmbusReply::Ack)
            },
            SmbusRequest::ReadWordData { register } => Ok(
                SmbusReply::Word { value: self.word_regs[*register as usize] },
            ),
            SmbusRequest::WriteWordData { register, value } => {
                self.word_regs[*register as usize] = *value;
                Ok(SmbusReply::Ack)
            },
            SmbusRequest::ProcessCall { register, value } => {
                let echoed: u16 = if *value < u16::MAX {
                    *value + 1
                } else {
                    0
                };
                Ok(SmbusReply::Word { value: echoed })
            },
            SmbusRequest::ReadBlockData { register } => {
                let data = slice_to_vec(self.block_regs[*register as usize].as_slice());
                Ok(SmbusReply::Block { data })
            },
            SmbusRequest::WriteBlockData { register, data } => {
                if data.len() <= SMBUS_BLOCK_MAX {
                    let stored = slice_to_vec(data.as_slice());
                    self.block_regs[*register as usize] = stored;
                    proof {
                        assert(self@.block_regs =~= mock_next(old(self)@, req@).block_regs);
                    }
                    Ok(SmbusReply::Ack)
                } else {
                    Err(EINVAL)
                }
            },
            SmbusRequest::WriteI2cBlockData { register, data } => {
                if 1 <= data.len() && data.len() <= I2C_BLOCK_MAX {
                    let stored = slice_to_vec(data.as_slice());
                    self.block_regs[*register as usize] = stored;
                    proof {
                        assert(self@.block_regs =~= mock_next(old(self)@, req@).block_regs);
                    }
                    Ok(SmbusReply::Ack)
                } else {
                    Err(EINVAL)
                }
            },
        }
    }

    fn read_stream(&mut self, max_len: usize) -> (r: Result<Vec<u8>, i32>) {
        proof {
            use_type_invariant(&*self);
        }
        let n = if self.incoming.len() <= max_len {
            self.incoming.len()
        } else {
            max_len
        };
        let taken = slice_to_vec(slice_subrange(self.incoming.as_slice(), 0, n));
        let rest = slice_to_vec(slice_subrange(self.incoming.as_slice(), n, self.incoming.len()));
        self.incoming = rest;
        Ok(taken)
    }

    fn write_stream(&mut self, data: &[u8]) -> (r: Result<usize, i32>) {
        proof {
            use_type_invariant(&*self);
        }
        let mut combined = slice_to_vec(self.outgoing.as_slice());
        let mut extra = slice_to_vec(data);
        combined.append(&mut extra);
        self.outgoing = combined;
        Ok(data.len())
    }

    fn flush_stream(&mut self) -> (r: Result<(), i32>) {
        Ok(())
    }
}

/// Construction against the mock kernel, step by step: a missing path fails
/// at the open step with its own error number; an existing path yields the
/// fresh state; an address outside the 7-bit range fails at the bind step
/// with the kernel's error number; an accepted address is recorded exactly.
pub proof fn lemma_mock_construction(path: Seq<char>, address: u16)
    ensures
        !mock_path_exists(path) ==> mock_open_spec(path) == Err::<MockPortView, i32>(ENOENT),
        mock_path_exists(path) ==> mock_open_spec(path) == Ok::<MockPortView, i32>(
            mock_init(path),
        ),
        mock_accepts_address(address) ==> (mock_bind_spec(mock_init(path), address) matches Ok(v)
            && v.bound_address == address),
        !mock_accepts_address(address) ==> mock_bind_spec(mock_init(path), address) == Err::<
            MockPortView,
            i32,
        >(EINVAL),
{
}

/// Every mock transaction preserves the state invariant: the register files
/// stay full and every stored block stays within the 32-byte bound.
pub proof fn lemma_mock_next_preserves_wf(v: MockPortView, req: SmbusReq)
    requires
        mock_wf(v),
    ensures
        mock_wf(mock_next(v, req)),
{
    let next = mock_next(v, req);
    assert forall|i: int| 0 <= i < MOCK_REG_COUNT as int implies (#[trigger] next.block_regs[i]).len()
        <= SMBUS_BLOCK_MAX as int by {
        assert(v.block_regs[i].len() <= SMBUS_BLOCK_MAX as int);
    }
}

/// A block read followed immediately by a block write of the returned bytes
/// to the same register round-trips exactly: the read succeeds and hands the
/// stored block through unchanged, the write is accepted, and the block
/// store afterwards is exactly what it was before, for every stored length
/// from 0 to 32.
pub proof fn lemma_mock_block_round_trip(v: MockPortView, register: u8)
    requires
        mock_wf(v),
        !v.quick_only,
    ensures
        mock_reply(v, SmbusReq::ReadBlockData { register }) == Ok::<SmbusRep, i32>(
            SmbusRep::Block { data: v.block_regs[register as int] },
        ),
        mock_reply(
            mock_next(v, SmbusReq::ReadBlockData { register }),
            SmbusReq::WriteBlockData { register, data: v.block_regs[register as int] },
        ) == Ok::<SmbusRep, i32>(SmbusRep::Ack),
        mock_next(
            mock_next(v, SmbusReq::ReadBlockData { register }),
            SmbusReq::WriteBlockData { register, data: v.block_regs[register as int] },
        ).block_regs == v.block_regs,
{
    let data = v.block_regs[register as int];
    let after_read = mock_next(v, SmbusReq::ReadBlockData { register });
    let after_write = mock_next(after_read, SmbusReq::WriteBlockData { register, data });
    assert(after_write.block_regs =~= v.block_regs);
}

/// A word written to a register and read back from the same register comes
/// back exactly as written: 16-bit values survive the store unchanged, byte
/// order included.
pub proof fn lemma_mock_word_write_read(v: MockPortView, register: u8, value: u16)
    requires
        mock_wf(v),
        !v.quick_only,
    ensures
        mock_reply(v, SmbusReq::WriteWordData { register, value }) == Ok::<SmbusRep, i32>(
            SmbusRep::Ack,
        ),
        mock_reply(
            mock_next(v, SmbusReq::WriteWordData { register, value }),
            SmbusReq::ReadWordData { register },
        ) == Ok::<SmbusRep, i32>(SmbusRep::Word { value }),
{
}

/// A process call against the echoing mock device returns the written word
/// plus one and is exactly one bus transaction: the counter steps by one and
/// nothing else in the mock state changes.
pub proof fn lemma_mock_process_call(v: MockPortView, register: u8, value: u16)
    requires
        !v.quick_only,
        v.transactions < u64::MAX,
    ensures
        mock_reply(v, SmbusReq::ProcessCall { register, value }) == Ok::<SmbusRep, i32>(
            SmbusRep::Word { value: mock_echo(value) },
        ),
        mock_next(v, SmbusReq::ProcessCall { register, value }) == (MockPortView {
            transactions: (v.transactions + 1) as u64,
            ..v
        }),
{
}

/// No transaction rebinds the slave address: against the mock kernel the
/// bound address is a property of the port, changed only by an explicit
/// bind, never by a transaction.
pub proof fn lemma_mock_transact_keeps_address(v: MockPortView, req: SmbusReq)
    ensures
        mock_next(v, req).bound_address == v.bound_address,
{
}

/// A quick-command-only mock accepts the quick transaction with no data
/// payload and refuses every other transaction class.
pub proof fn lemma_mock_quick_only(v: MockPortView, req: SmbusReq, bit: bool)
    requires
        v.quick_only,
    ensures
        mock_reply(v, SmbusReq::Quick { bit }) == Ok::<SmbusRep, i32>(SmbusRep::Ack),
        !(req is Quick) ==> mock_reply(v, req) == Err::<SmbusRep, i32>(EOPNOTSUPP),
{
}

} // verus!
