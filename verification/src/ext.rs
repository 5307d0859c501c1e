//! The externalities through which host functions act on behalf of a
//! program: its wasm memory, the message being processed, and the messages
//! and programs that it creates.
//!
//! Implementors describe each operation by a spec function of their state:
//! queries by the value that they return, operations by the state that they
//! leave and the result that they give back. The spec functions carry
//! default bodies that leave them unspecified, so that implementations
//! outside verified code (test doubles, for one) compile; a verified
//! implementation overrides each of them to describe itself, and cannot
//! prove the contract of a method whose spec function it leaves at the
//! default. What the contracts here say of an implementation that is not
//! verified, and so keeps the defaults, is trusted, not proved.

use vstd::pervasive::arbitrary;
use vstd::prelude::*;

verus! {

/// Identifier of a message.
#[derive(Clone, Copy, Debug, PartialEq, Eq)]
pub struct MessageId(pub [u8; 32]);

/// Identifier of a program.
#[derive(Clone, Copy, Debug, PartialEq, Eq)]
pub struct ProgramId(pub [u8; 32]);

/// Number of a wasm page (64 KiB).
#[derive(Clone, Copy, Debug, PartialEq, Eq, Structural)]
pub struct WasmPageNumber(pub u32);

impl MessageId {
    /// The identifier's bytes.
    pub fn as_slice(&self) -> (s: &[u8])
        ensures
            s@ == self.0@,
    {
        self.0.as_slice()
    }
}

impl ProgramId {
    /// The identifier's bytes.
    pub fn as_slice(&self) -> (s: &[u8])
        ensures
            s@ == self.0@,
    {
        self.0.as_slice()
    }
}

impl WasmPageNumber {
    /// The page number as an integer.
    pub fn raw(&self) -> (r: u32)
        ensures
            r == self.0,
    {
        self.0
    }
}

/// A message to be sent.
pub struct OutgoingPacket {
    /// Program that receives the message.
    pub destination: ProgramId,
    /// Message payload.
    pub payload: Vec<u8>,
    /// Gas limit, where one is set.
    pub gas_limit: Option<u64>,
    /// Value sent with the message.
    pub value: u128,
}

/// A reply to be sent to the message being processed.
pub struct ReplyPacket {
    /// Exit code of the reply.
    pub exit_code: i32,
    /// Reply payload.
    pub payload: Vec<u8>,
    /// Value sent with the reply.
    pub value: u128,
}

/// A request to create a program.
pub struct ProgramInitPacket {
    /// Hash of the code of the new program.
    pub code_hash: [u8; 32],
    /// Salt of the new program's identifier.
    pub salt: Vec<u8>,
    /// Payload of the initialising message.
    pub payload: Vec<u8>,
    /// Gas limit of the initialising message.
    pub gas_limit: u64,
    /// Value sent with the initialising message.
    pub value: u128,
}

/// The contents of a message to be sent, as plain values.
pub struct OutgoingPacketView {
    pub destination: Seq<u8>,
    pub payload: Seq<u8>,
    pub gas_limit: Option<u64>,
    pub value: u128,
}

/// The contents of a reply, as plain values.
pub struct ReplyPacketView {
    pub exit_code: i32,
    pub payload: Seq<u8>,
    pub value: u128,
}

/// The contents of a program-creation request, as plain values.
pub struct ProgramInitPacketView {
    pub code_hash: Seq<u8>,
    pub salt: Seq<u8>,
    pub payload: Seq<u8>,
    pub gas_limit: u64,
    pub value: u128,
}

impl View for OutgoingPacket {
    type V = OutgoingPacketView;

    open spec fn view(&self) -> OutgoingPacketView {
        OutgoingPacketView {
            destination: self.destination.0@,
            payload: self.payload@,
            gas_limit: self.gas_limit,
            value: self.value,
        }
    }
}

impl View for ReplyPacket {
    type V = ReplyPacketView;

    open spec fn view(&self) -> ReplyPacketView {
        ReplyPacketView { exit_code: self.exit_code, payload: self.payload@, value: self.value }
    }
}

impl View for ProgramInitPacket {
    type V = ProgramInitPacketView;

    open spec fn view(&self) -> ProgramInitPacketView {
        ProgramInitPacketView {
            code_hash: self.code_hash@,
            salt: self.salt@,
            payload: self.payload@,
            gas_limit: self.gas_limit,
            value: self.value,
        }
    }
}

/// Memory `m` after `bytes` have been written at `ptr`.
pub open spec fn write_bytes(m: Seq<u8>, ptr: int, bytes: Seq<u8>) -> Seq<u8> {
    Seq::new(m.len(), |i: int| if ptr <= i < ptr + bytes.len() { bytes[i - ptr] } else { m[i] })
}

/// A read of the bytes just written gives them back, and the rest of memory
/// is as it was.
pub proof fn lemma_read_after_write(m: Seq<u8>, ptr: int, bytes: Seq<u8>)
    requires
        0 <= ptr,
        ptr + bytes.len() <= m.len(),
    ensures
        write_bytes(m, ptr, bytes).len() == m.len(),
        write_bytes(m, ptr, bytes).subrange(ptr, ptr + bytes.len()) == bytes,
        forall|i: int|
            0 <= i < m.len() && !(ptr <= i < ptr + bytes.len()) ==> #[trigger] write_bytes(
                m,
                ptr,
                bytes,
            )[i] == m[i],
{
    assert(write_bytes(m, ptr, bytes).subrange(ptr, ptr + bytes.len()) =~= bytes);
}

/// Externalities of a program's execution.
pub trait Ext: Sized {
    /// The program's wasm memory.
    closed spec fn memory(&self) -> Seq<u8> {
        arbitrary()
    }

    /// The state after `bytes` have been written to memory at `ptr`.
    closed spec fn after_set_mem(&self, ptr: int, bytes: Seq<u8>) -> Self {
        arbitrary()
    }

    /// Reads `buffer.len()` bytes of memory at `ptr` into `buffer`.
    fn get_mem(&self, ptr: usize, buffer: &mut [u8])
        requires
            ptr + old(buffer)@.len() <= self.memory().len(),
        ensures
            final(buffer)@ == self.memory().subrange(ptr as int, ptr + old(buffer)@.len()),
    ;

    /// Writes `val` to memory at `ptr`.
    fn set_mem(&mut self, ptr: usize, val: &[u8])
        requires
            ptr + val@.len() <= old(self).memory().len(),
        ensures
            *final(self) == old(self).after_set_mem(ptr as int, val@),
            final(self).memory() == write_bytes(old(self).memory(), ptr as int, val@),
    ;

    /// What `alloc_pages` does.
    closed spec fn alloc_pages_outcome(&self, pages: WasmPageNumber) -> (Self, Result<WasmPageNumber, &'static str>) {
        arbitrary()
    }

    /// Allocates `pages` wasm pages; returns the first of them.
    fn alloc_pages(&mut self, pages: WasmPageNumber) -> (r: Result<WasmPageNumber, &'static str>)
        ensures
            (*final(self), r) == old(self).alloc_pages_outcome(pages),
    ;

    /// What `free` does.
    closed spec fn free_outcome(&self, page: WasmPageNumber) -> (Self, Result<(), &'static str>) {
        arbitrary()
    }

    /// Frees a wasm page.
    fn free(&mut self, page: WasmPageNumber) -> (r: Result<(), &'static str>)
        ensures
            (*final(self), r) == old(self).free_outcome(page),
    ;

    /// The current block height.
    closed spec fn spec_block_height(&self) -> u32 {
        arbitrary()
    }

    /// Returns the current block height.
    fn block_height(&self) -> (r: u32)
        ensures
            r == self.spec_block_height(),
    ;

    /// The current block timestamp.
    closed spec fn spec_block_timestamp(&self) -> u64 {
        arbitrary()
    }

    /// Returns the current block timestamp.
    fn block_timestamp(&self) -> (r: u64)
        ensures
            r == self.spec_block_timestamp(),
    ;

    /// The message that the one being processed replies to, with its exit
    /// code, where it is a reply.
    closed spec fn spec_reply_to(&self) -> Option<(MessageId, i32)> {
        arbitrary()
    }

    /// Returns the message that the one being processed replies to, with its
    /// exit code, where it is a reply.
    fn reply_to(&self) -> (r: Option<(MessageId, i32)>)
        ensures
            r == self.spec_reply_to(),
    ;

    /// Payload of the message being processed.
    closed spec fn spec_msg(&self) -> Seq<u8> {
        arbitrary()
    }

    /// Returns the payload of the message being processed.
    fn msg(&self) -> (r: &[u8])
        ensures
            r@ == self.spec_msg(),
    ;

    /// What `debug` does.
    closed spec fn debug_outcome(&self, text: Seq<char>) -> (Self, Result<(), &'static str>) {
        arbitrary()
    }

    /// Emits a debug text.
    fn debug(&mut self, text: &str) -> (r: Result<(), &'static str>)
        ensures
            (*final(self), r) == old(self).debug_outcome(text@),
            final(self).memory() == old(self).memory(),
    ;

    /// What `charge_gas` does.
    closed spec fn charge_gas_outcome(&self, amount: u64) -> (Self, Result<(), &'static str>) {
        arbitrary()
    }

    /// Charges gas.
    fn charge_gas(&mut self, amount: u64) -> (r: Result<(), &'static str>)
        ensures
            (*final(self), r) == old(self).charge_gas_outcome(amount),
            final(self).memory() == old(self).memory(),
    ;

    /// Gas left.
    closed spec fn spec_gas_available(&self) -> u64 {
        arbitrary()
    }

    /// Returns the gas left.
    fn gas_available(&self) -> (r: u64)
        ensures
            r == self.spec_gas_available(),
    ;

    /// What `exit` does.
    closed spec fn exit_outcome(&self, value_destination: Seq<u8>) -> (Self, Result<(), &'static str>) {
        arbitrary()
    }

    /// Ends the program, sending its value to `value_destination`.
    fn exit(&mut self, value_destination: ProgramId) -> (r: Result<(), &'static str>)
        ensures
            (*final(self), r) == old(self).exit_outcome(value_destination.0@),
            final(self).memory() == old(self).memory(),
    ;

    /// Origin of the message being processed.
    closed spec fn spec_origin(&self) -> ProgramId {
        arbitrary()
    }

    /// Returns the origin of the message being processed.
    fn origin(&self) -> (r: ProgramId)
        ensures
            r == self.spec_origin(),
    ;

    /// Identifier of the message being processed.
    closed spec fn spec_message_id(&self) -> MessageId {
        arbitrary()
    }

    /// Returns the identifier of the message being processed.
    fn message_id(&self) -> (r: MessageId)
        ensures
            r == self.spec_message_id(),
    ;

    /// What `reply` does.
    closed spec fn reply_outcome(&self, msg: ReplyPacketView) -> (Self, Result<MessageId, &'static str>) {
        arbitrary()
    }

    /// Sends a reply to the message being processed.
    fn reply(&mut self, msg: ReplyPacket) -> (r: Result<MessageId, &'static str>)
        ensures
            (*final(self), r) == old(self).reply_outcome(msg@),
            final(self).memory() == old(self).memory(),
    ;

    /// What `reply_commit` does.
    closed spec fn reply_commit_outcome(&self, msg: ReplyPacketView) -> (Self, Result<MessageId, &'static str>) {
        arbitrary()
    }

    /// Sends the reply whose payload has been pushed so far.
    fn reply_commit(&mut self, msg: ReplyPacket) -> (r: Result<MessageId, &'static str>)
        ensures
            (*final(self), r) == old(self).reply_commit_outcome(msg@),
            final(self).memory() == old(self).memory(),
    ;

    /// What `reply_push` does.
    closed spec fn reply_push_outcome(&self, buffer: Seq<u8>) -> (Self, Result<(), &'static str>) {
        arbitrary()
    }

    /// Appends to the payload of the reply being built.
    fn reply_push(&mut self, buffer: &[u8]) -> (r: Result<(), &'static str>)
        ensures
            (*final(self), r) == old(self).reply_push_outcome(buffer@),
            final(self).memory() == old(self).memory(),
    ;

    /// What `send` does.
    closed spec fn send_outcome(&self, msg: OutgoingPacketView) -> (Self, Result<MessageId, &'static str>) {
        arbitrary()
    }

    /// Sends a message.
    fn send(&mut self, msg: OutgoingPacket) -> (r: Result<MessageId, &'static str>)
        ensures
            (*final(self), r) == old(self).send_outcome(msg@),
            final(self).memory() == old(self).memory(),
    ;

    /// What `send_commit` does.
    closed spec fn send_commit_outcome(&self, handle: usize, msg: OutgoingPacketView) -> (
        Self,
        Result<MessageId, &'static str>,
    ) {
        arbitrary()
    }

    /// Sends the message built under `handle`.
    fn send_commit(&mut self, handle: usize, msg: OutgoingPacket) -> (r: Result<
        MessageId,
        &'static str,
    >)
        ensures
            (*final(self), r) == old(self).send_commit_outcome(handle, msg@),
            final(self).memory() == old(self).memory(),
    ;

    /// What `send_init` does.
    closed spec fn send_init_outcome(&self) -> (Self, Result<usize, &'static str>) {
        arbitrary()
    }

    /// Starts building a message; returns its handle.
    fn send_init(&mut self) -> (r: Result<usize, &'static str>)
        ensures
            (*final(self), r) == old(self).send_init_outcome(),
            final(self).memory() == old(self).memory(),
    ;

    /// What `send_push` does.
    closed spec fn send_push_outcome(&self, handle: usize, buffer: Seq<u8>) -> (Self, Result<(), &'static str>) {
        arbitrary()
    }

    /// Appends to the payload of the message built under `handle`.
    fn send_push(&mut self, handle: usize, buffer: &[u8]) -> (r: Result<(), &'static str>)
        ensures
            (*final(self), r) == old(self).send_push_outcome(handle, buffer@),
            final(self).memory() == old(self).memory(),
    ;

    /// What `create_program` does.
    closed spec fn create_program_outcome(&self, packet: ProgramInitPacketView) -> (
        Self,
        Result<ProgramId, &'static str>,
    ) {
        arbitrary()
    }

    /// Creates a program; returns its identifier.
    fn create_program(&mut self, packet: ProgramInitPacket) -> (r: Result<ProgramId, &'static str>)
        ensures
            (*final(self), r) == old(self).create_program_outcome(packet@),
            final(self).memory() == old(self).memory(),
    ;

    /// Source of the message being processed.
    closed spec fn spec_source(&self) -> ProgramId {
        arbitrary()
    }

    /// Returns the source of the message being processed.
    fn source(&self) -> (r: ProgramId)
        ensures
            r == self.spec_source(),
    ;

    /// Identifier of the running program.
    closed spec fn spec_program_id(&self) -> ProgramId {
        arbitrary()
    }

    /// Returns the identifier of the running program.
    fn program_id(&self) -> (r: ProgramId)
        ensures
            r == self.spec_program_id(),
    ;

    /// Value sent with the message being processed.
    closed spec fn spec_value(&self) -> u128 {
        arbitrary()
    }

    /// Returns the value sent with the message being processed.
    fn value(&self) -> (r: u128)
        ensures
            r == self.spec_value(),
    ;

    /// Value available to the program.
    closed spec fn spec_value_available(&self) -> u128 {
        arbitrary()
    }

    /// Returns the value available to the program.
    fn value_available(&self) -> (r: u128)
        ensures
            r == self.spec_value_available(),
    ;

    /// What `leave` does.
    closed spec fn leave_outcome(&self) -> (Self, Result<(), &'static str>) {
        arbitrary()
    }

    /// Ends the processing of the message.
    fn leave(&mut self) -> (r: Result<(), &'static str>)
        ensures
            (*final(self), r) == old(self).leave_outcome(),
            final(self).memory() == old(self).memory(),
    ;

    /// What `wait` does.
    closed spec fn wait_outcome(&self) -> (Self, Result<(), &'static str>) {
        arbitrary()
    }

    /// Puts the message being processed in the wait list.
    fn wait(&mut self) -> (r: Result<(), &'static str>)
        ensures
            (*final(self), r) == old(self).wait_outcome(),
            final(self).memory() == old(self).memory(),
    ;

    /// What `wake` does.
    closed spec fn wake_outcome(&self, waker_id: Seq<u8>) -> (Self, Result<(), &'static str>) {
        arbitrary()
    }

    /// Takes a message out of the wait list.
    fn wake(&mut self, waker_id: MessageId) -> (r: Result<(), &'static str>)
        ensures
            (*final(self), r) == old(self).wake_outcome(waker_id.0@),
            final(self).memory() == old(self).memory(),
    ;
}

} // verus!
