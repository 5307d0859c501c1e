//! Host functions that a wasm program calls: each decodes its arguments,
//! reads what it needs from the program's memory, acts through the
//! externalities and writes its results back to memory.
//!
//! Pointer and length arguments arrive as `i32`; a pointer is widened to
//! `usize` as the program passes it (with sign extension), except where
//! noted. The caller must keep every access inside memory, which the
//! externalities otherwise refuse by panicking.

use crate::ext::{lemma_read_after_write, write_bytes, Ext, MessageId, OutgoingPacket, OutgoingPacketView, ProgramId, ProgramInitPacket, ProgramInitPacketView, ReplyPacket, ReplyPacketView, WasmPageNumber};
use crate::traps::{EXIT_TRAP_STR, LEAVE_TRAP_STR, WAIT_TRAP_STR};
use vstd::bytes::{
    spec_u128_from_le_bytes, spec_u128_to_le_bytes, spec_u64_from_le_bytes, spec_u64_to_le_bytes,
};
use vstd::prelude::*;
use vstd::utf8::{decode_utf8, valid_utf8};

verus! {

/// Error of `exit_code` and `reply_to` outside the processing of a reply.
pub const NOT_REPLY_CONTEXT: &'static str = "Not running in the reply context";

/// Error of `debug` when the text is not UTF-8.
pub const DEBUG_PARSE_ERROR: &'static str = "Failed to parse debug string";

/// Error of `gas` when charging fails.
pub const GAS_ERROR: &'static str = "Trapping: unable to report about gas used";

/// Error of `reply` when the reply is refused.
pub const REPLY_ERROR: &'static str = "Trapping: unable to send reply message";

/// Error of `reply_commit`, `send` and `send_wgas` when the message is
/// refused.
pub const SEND_ERROR: &'static str = "Trapping: unable to send message";

/// Error of `reply_push` when the payload is refused.
pub const REPLY_PUSH_ERROR: &'static str = "Trapping: unable to push payload into reply";

/// Error of `send_commit` and `send_commit_wgas` when the message is refused.
pub const SEND_COMMIT_ERROR: &'static str = "Trapping: unable to commit and send message";

/// Error of `send_init` when no message can be started.
pub const SEND_INIT_ERROR: &'static str = "Trapping: unable to init message";

/// Error of `send_push` when the payload is refused.
pub const SEND_PUSH_ERROR: &'static str = "Trapping: unable to push payload into message";

/// Error of `create_program_wgas` when the program is refused.
pub const CREATE_PROGRAM_ERROR: &'static str = "Trapping: unable to create a new program";

/// Bytes `ptr .. ptr + len` of memory `m`.
pub open spec fn bytes_at(m: Seq<u8>, ptr: int, len: int) -> Seq<u8> {
    m.subrange(ptr, ptr + len)
}

/// Bytes `ptr .. ptr + len` lie inside memory `m`.
pub open spec fn in_memory(m: Seq<u8>, ptr: int, len: int) -> bool {
    0 <= ptr && 0 <= len && ptr + len <= m.len()
}

/// The little-endian `u64` at `ptr` in memory `m`.
pub open spec fn u64_at(m: Seq<u8>, ptr: int) -> u64 {
    spec_u64_from_le_bytes(bytes_at(m, ptr, 8))
}

/// The little-endian `u128` at `ptr` in memory `m`.
pub open spec fn u128_at(m: Seq<u8>, ptr: int) -> u128 {
    spec_u128_from_le_bytes(bytes_at(m, ptr, 16))
}

/// The message that `send`-like host functions build from memory `m`.
pub open spec fn outgoing_packet(
    m: Seq<u8>,
    program_id_ptr: int,
    payload_ptr: int,
    payload_len: int,
    gas_limit: Option<u64>,
    value_ptr: int,
) -> OutgoingPacketView {
    OutgoingPacketView {
        destination: bytes_at(m, program_id_ptr, 32),
        payload: bytes_at(m, payload_ptr, payload_len),
        gas_limit,
        value: u128_at(m, value_ptr),
    }
}

/// Where an operation that yields a message identifier succeeds, the
/// identifier's place at `id_ptr` lies inside memory `m` (the memory before
/// the operation, which the operation leaves as it is).
pub open spec fn id_fits<E: Ext>(
    outcome: (E, Result<MessageId, &'static str>),
    m: Seq<u8>,
    id_ptr: int,
) -> bool {
    outcome.1 is Ok ==> in_memory(m, id_ptr, 32)
}

/// The end of a host function that writes the identifier yielded by an
/// operation to `id_ptr` of memory `m` (the memory before the operation,
/// which the operation leaves as it is), or fails with `error`, leaving `m`,
/// where the operation fails.
pub open spec fn id_written<E: Ext>(
    outcome: (E, Result<MessageId, &'static str>),
    m: Seq<u8>,
    id_ptr: int,
    error: &'static str,
    after: E,
    r: Result<(), &'static str>,
) -> bool {
    match outcome.1 {
        Ok(id) => {
            &&& after == outcome.0.after_set_mem(id_ptr, id.0@)
            &&& after.memory() == write_bytes(m, id_ptr, id.0@)
            &&& r == Ok::<(), &'static str>(())
        },
        Err(_) => {
            &&& after == outcome.0
            &&& after.memory() == m
            &&& r == Err::<(), &'static str>(error)
        },
    }
}

/// The result of an operation, with its error replaced by `error`.
pub open spec fn with_error<T>(r: Result<T, &'static str>, error: &'static str) -> Result<
    T,
    &'static str,
> {
    match r {
        Ok(v) => Ok(v),
        Err(_) => Err(error),
    }
}

/// Reads `N` bytes of memory at `ptr`.
pub fn get_fixed_bytes<E: Ext, const N: usize>(ext: &E, ptr: usize) -> (r: [u8; N])
    requires
        in_memory(ext.memory(), ptr as int, N as int),
    ensures
        r@ == bytes_at(ext.memory(), ptr as int, N as int),
{
    let mut buf = [0u8;N];
    ext.get_mem(ptr, &mut buf);
    buf
}

/// Reads the little-endian `u64` at `ptr`.
pub fn get_u64<E: Ext>(ext: &E, ptr: usize) -> (r: u64)
    requires
        in_memory(ext.memory(), ptr as int, 8),
    ensures
        r == u64_at(ext.memory(), ptr as int),
{
    let bytes: [u8; 8] = get_fixed_bytes(ext, ptr);
    vstd::bytes::u64_from_le_bytes(bytes.as_slice())
}

/// Reads the little-endian `u128` at `ptr`.
pub fn get_u128<E: Ext>(ext: &E, ptr: usize) -> (r: u128)
    requires
        in_memory(ext.memory(), ptr as int, 16),
    ensures
        r == u128_at(ext.memory(), ptr as int),
{
    let bytes: [u8; 16] = get_fixed_bytes(ext, ptr);
    vstd::bytes::u128_from_le_bytes(bytes.as_slice())
}

/// Reads `len` bytes of memory at `ptr`.
pub fn get_vec<E: Ext>(ext: &E, ptr: usize, len: usize) -> (r: Vec<u8>)
    requires
        in_memory(ext.memory(), ptr as int, len as int),
    ensures
        r@ == bytes_at(ext.memory(), ptr as int, len as int),
{
    let mut vec: Vec<u8> = vec![0u8; len];
    ext.get_mem(ptr, vec.as_mut_slice());
    vec
}

/// Writes `val` as a little-endian `u128` to memory at `ptr`.
pub fn set_u128<E: Ext>(ext: &mut E, ptr: usize, val: u128)
    requires
        in_memory(old(ext).memory(), ptr as int, 16),
    ensures
        *final(ext) == old(ext).after_set_mem(ptr as int, spec_u128_to_le_bytes(val)),
        final(ext).memory() == write_bytes(old(ext).memory(), ptr as int, spec_u128_to_le_bytes(val)),
{
    let bytes = vstd::bytes::u128_to_le_bytes(val);
    ext.set_mem(ptr, bytes.as_slice());
}

/// Converts the bytes of a debug text, where they are UTF-8.
#[verifier::external_body]
fn string_from_utf8(bytes: Vec<u8>) -> (r: Option<String>)
    ensures
        match r {
            Some(text) => valid_utf8(bytes@) && text@ == decode_utf8(bytes@),
            None => !valid_utf8(bytes@),
        },
{
    match String::from_utf8(bytes) {
        Ok(text) => Some(text),
        Err(_) => None,
    }
}

/// `alloc`: allocates `pages` wasm pages (the argument's bits read as an
/// unsigned number) and returns the number of the first one.
pub fn alloc_pages<E: Ext>(ext: &mut E, pages: i32) -> (r: Result<u32, &'static str>)
    ensures
        ({
            let (after, res) = old(ext).alloc_pages_outcome(WasmPageNumber(pages as u32));
            &&& *final(ext) == after
            &&& r == match res {
                Ok(page) => Ok::<u32, &'static str>(page.0),
                Err(e) => Err(e),
            }
        }),
{
    let pages = pages as u32;
    match ext.alloc_pages(WasmPageNumber(pages)) {
        Ok(v) => Ok(v.raw()),
        Err(e) => Err(e),
    }
}

/// The current block height, its bits read as an `i32`.
pub fn block_height<E: Ext>(ext: &E) -> (r: i32)
    ensures
        r == ext.spec_block_height() as i32,
{
    ext.block_height() as i32
}

/// The current block timestamp, its bits read as an `i64`.
pub fn block_timestamp<E: Ext>(ext: &E) -> (r: i64)
    ensures
        r == ext.spec_block_timestamp() as i64,
{
    ext.block_timestamp() as i64
}

/// The exit code of the message that the one being processed replies to.
pub fn exit_code<E: Ext>(ext: &E) -> (r: Result<i32, &'static str>)
    ensures
        r == match ext.spec_reply_to() {
            Some((_, code)) => Ok::<i32, &'static str>(code),
            None => Err(NOT_REPLY_CONTEXT),
        },
{
    let reply_tuple = ext.reply_to();
    if let Some((_, exit_code)) = reply_tuple {
        Ok(exit_code)
    } else {
        Err(NOT_REPLY_CONTEXT)
    }
}

/// `free`: frees the wasm page `page` (its bits read as unsigned). Whether
/// the page could be freed is not reported to the program.
pub fn free<E: Ext>(ext: &mut E, page: i32) -> (r: Result<(), &'static str>)
    ensures
        *final(ext) == old(ext).free_outcome(WasmPageNumber(page as u32)).0,
        r is Ok,
{
    let page = page as u32;
    let _ = ext.free(WasmPageNumber(page));
    Ok(())
}

/// `debug`: emits the UTF-8 text of `str_len` bytes at `str_ptr` (both read
/// as unsigned).
pub fn debug<E: Ext>(ext: &mut E, str_ptr: i32, str_len: i32) -> (r: Result<(), &'static str>)
    requires
        in_memory(old(ext).memory(), (str_ptr as u32) as int, (str_len as u32) as int),
    ensures
        final(ext).memory() == old(ext).memory(),
        ({
            let text = bytes_at(old(ext).memory(), (str_ptr as u32) as int, (str_len as u32) as int);
            if valid_utf8(text) {
                (*final(ext), r) == old(ext).debug_outcome(decode_utf8(text))
            } else {
                *final(ext) == *old(ext) && r == Err::<(), &'static str>(DEBUG_PARSE_ERROR)
            }
        }),
{
    let str_ptr = str_ptr as u32 as usize;
    let str_len = str_len as u32 as usize;
    let data = get_vec(ext, str_ptr, str_len);
    match string_from_utf8(data) {
        Some(s) => ext.debug(s.as_str()),
        None => Err(DEBUG_PARSE_ERROR),
    }
}

/// `gas`: charges `val` gas (sign-extended to 64 bits).
pub fn gas<E: Ext>(ext: &mut E, val: i32) -> (r: Result<(), &'static str>)
    ensures
        final(ext).memory() == old(ext).memory(),
        ({
            let (after, res) = old(ext).charge_gas_outcome(val as u64);
            *final(ext) == after && r == with_error(res, GAS_ERROR)
        }),
{
    match ext.charge_gas(val as u64) {
        Ok(()) => Ok(()),
        Err(_) => Err(GAS_ERROR),
    }
}

/// The gas left, its bits read as an `i64`.
pub fn gas_available<E: Ext>(ext: &E) -> (r: i64)
    ensures
        r == ext.spec_gas_available() as i64,
{
    ext.gas_available() as i64
}

/// `exit`: ends the program, sending its value to the program whose
/// identifier is at `program_id_ptr` (read as unsigned); always fails with
/// the exit trap, which breaks the execution.
pub fn exit<E: Ext>(ext: &mut E, program_id_ptr: i32) -> (r: Result<(), &'static str>)
    requires
        in_memory(old(ext).memory(), (program_id_ptr as u32) as int, 32),
    ensures
        final(ext).memory() == old(ext).memory(),
        *final(ext) == old(ext).exit_outcome(
            bytes_at(old(ext).memory(), (program_id_ptr as u32) as int, 32),
        ).0,
        r == Err::<(), &'static str>(EXIT_TRAP_STR),
{
    let value_dest = ProgramId(get_fixed_bytes(ext, program_id_ptr as u32 as usize));
    let _ = ext.exit(value_dest);
    Err(EXIT_TRAP_STR)
}

/// `origin`: writes the origin of the message being processed to
/// `origin_ptr`.
pub fn origin<E: Ext>(ext: &mut E, origin_ptr: i32) -> (r: Result<(), &'static str>)
    requires
        in_memory(old(ext).memory(), origin_ptr as usize as int, 32),
    ensures
        *final(ext) == old(ext).after_set_mem(origin_ptr as usize as int, old(ext).spec_origin().0@),
        final(ext).memory() == write_bytes(old(ext).memory(), origin_ptr as usize as int, old(ext).spec_origin().0@),
        r is Ok,
{
    let id = ext.origin();
    ext.set_mem(origin_ptr as usize, id.as_slice());
    Ok(())
}

/// `msg_id`: writes the identifier of the message being processed to
/// `msg_id_ptr`.
pub fn msg_id<E: Ext>(ext: &mut E, msg_id_ptr: i32) -> (r: Result<(), &'static str>)
    requires
        in_memory(old(ext).memory(), msg_id_ptr as usize as int, 32),
    ensures
        *final(ext) == old(ext).after_set_mem(msg_id_ptr as usize as int, old(ext).spec_message_id().0@),
        final(ext).memory() == write_bytes(old(ext).memory(), msg_id_ptr as usize as int, old(ext).spec_message_id().0@),
        r is Ok,
{
    let message_id = ext.message_id();
    ext.set_mem(msg_id_ptr as usize, message_id.as_slice());
    Ok(())
}

/// `read`: copies `len` bytes of the message payload from offset `at` (both
/// read as unsigned) to memory at `dest`.
pub fn read<E: Ext>(ext: &mut E, at: i32, len: i32, dest: i32) -> (r: Result<(), &'static str>)
    requires
        (at as u32) + (len as u32) <= old(ext).spec_msg().len(),
        in_memory(old(ext).memory(), dest as usize as int, (len as u32) as int),
    ensures
        *final(ext) == old(ext).after_set_mem(
            dest as usize as int,
            bytes_at(old(ext).spec_msg(), (at as u32) as int, (len as u32) as int),
        ),
        final(ext).memory() == write_bytes(
            old(ext).memory(),
            dest as usize as int,
            bytes_at(old(ext).spec_msg(), (at as u32) as int, (len as u32) as int),
        ),
        r is Ok,
{
    let at = at as u32 as usize;
    let len = len as u32 as usize;
    let msg = vstd::slice::slice_to_vec(ext.msg());
    assert(at + len <= msg.len());
    ext.set_mem(dest as usize, &msg.as_slice()[at..(at + len)]);
    Ok(())
}

/// `reply`: replies to the message being processed with the `payload_len`
/// bytes at `payload_ptr` and the value at `value_ptr`, and writes the
/// reply's identifier to `message_id_ptr`.
pub fn reply<E: Ext>(
    ext: &mut E,
    payload_ptr: i32,
    payload_len: i32,
    value_ptr: i32,
    message_id_ptr: i32,
) -> (r: Result<(), &'static str>)
    requires
        in_memory(old(ext).memory(), payload_ptr as usize as int, payload_len as usize as int),
        in_memory(old(ext).memory(), value_ptr as usize as int, 16),
        id_fits(
            old(ext).reply_outcome(
                ReplyPacketView {
                    exit_code: 0,
                    payload: bytes_at(
                        old(ext).memory(),
                        payload_ptr as usize as int,
                        payload_len as usize as int,
                    ),
                    value: u128_at(old(ext).memory(), value_ptr as usize as int),
                },
            ),
            old(ext).memory(),
            message_id_ptr as usize as int,
        ),
    ensures
        id_written(
            old(ext).reply_outcome(
                ReplyPacketView {
                    exit_code: 0,
                    payload: bytes_at(
                        old(ext).memory(),
                        payload_ptr as usize as int,
                        payload_len as usize as int,
                    ),
                    value: u128_at(old(ext).memory(), value_ptr as usize as int),
                },
            ),
            old(ext).memory(),
            message_id_ptr as usize as int,
            REPLY_ERROR,
            *final(ext),
            r,
        ),
{
    let payload = get_vec(ext, payload_ptr as usize, payload_len as usize);
    let value = get_u128(ext, value_ptr as usize);
    match ext.reply(ReplyPacket { exit_code: 0, payload, value }) {
        Ok(message_id) => {
            ext.set_mem(message_id_ptr as usize, message_id.as_slice());
            Ok(())
        },
        Err(_) => Err(REPLY_ERROR),
    }
}

/// `reply_commit`: sends the reply whose payload has been pushed so far,
/// with the value at `value_ptr`, and writes its identifier to
/// `message_id_ptr`.
pub fn reply_commit<E: Ext>(ext: &mut E, message_id_ptr: i32, value_ptr: i32) -> (r: Result<
    (),
    &'static str,
>)
    requires
        in_memory(old(ext).memory(), value_ptr as usize as int, 16),
        id_fits(
            old(ext).reply_commit_outcome(
                ReplyPacketView {
                    exit_code: 0,
                    payload: Seq::empty(),
                    value: u128_at(old(ext).memory(), value_ptr as usize as int),
                },
            ),
            old(ext).memory(),
            message_id_ptr as usize as int,
        ),
    ensures
        id_written(
            old(ext).reply_commit_outcome(
                ReplyPacketView {
                    exit_code: 0,
                    payload: Seq::empty(),
                    value: u128_at(old(ext).memory(), value_ptr as usize as int),
                },
            ),
            old(ext).memory(),
            message_id_ptr as usize as int,
            SEND_ERROR,
            *final(ext),
            r,
        ),
{
    let value = get_u128(ext, value_ptr as usize);
    let payload: Vec<u8> = Vec::new();
    match ext.reply_commit(ReplyPacket { exit_code: 0, payload, value }) {
        Ok(message_id) => {
            ext.set_mem(message_id_ptr as usize, message_id.as_slice());
            Ok(())
        },
        Err(_) => Err(SEND_ERROR),
    }
}

/// `reply_push`: appends the `payload_len` bytes at `payload_ptr` to the
/// payload of the reply being built.
pub fn reply_push<E: Ext>(ext: &mut E, payload_ptr: i32, payload_len: i32) -> (r: Result<
    (),
    &'static str,
>)
    requires
        in_memory(old(ext).memory(), payload_ptr as usize as int, payload_len as usize as int),
    ensures
        final(ext).memory() == old(ext).memory(),
        ({
            let (after, res) = old(ext).reply_push_outcome(
                bytes_at(old(ext).memory(), payload_ptr as usize as int, payload_len as usize as int),
            );
            *final(ext) == after && r == with_error(res, REPLY_PUSH_ERROR)
        }),
{
    let payload = get_vec(ext, payload_ptr as usize, payload_len as usize);
    match ext.reply_push(payload.as_slice()) {
        Ok(()) => Ok(()),
        Err(_) => Err(REPLY_PUSH_ERROR),
    }
}

/// `reply_to`: writes the identifier of the message that the one being
/// processed replies to at `dest`.
pub fn reply_to<E: Ext>(ext: &mut E, dest: i32) -> (r: Result<(), &'static str>)
    requires
        old(ext).spec_reply_to() is Some ==> in_memory(old(ext).memory(), dest as usize as int, 32),
    ensures
        match old(ext).spec_reply_to() {
            Some((id, _)) => *final(ext) == old(ext).after_set_mem(dest as usize as int, id.0@)
                && final(ext).memory() == write_bytes(old(ext).memory(), dest as usize as int, id.0@)
                && r is Ok,
            None => *final(ext) == *old(ext) && r == Err::<(), &'static str>(NOT_REPLY_CONTEXT),
        },
{
    let maybe_message_id = ext.reply_to();
    match maybe_message_id {
        Some((message_id, _)) => {
            ext.set_mem(dest as usize, message_id.as_slice());
            Ok(())
        },
        None => Err(NOT_REPLY_CONTEXT),
    }
}

/// Reads the message that `send`-like host functions send.
fn read_outgoing_packet<E: Ext>(
    ext: &E,
    program_id_ptr: usize,
    payload_ptr: usize,
    payload_len: usize,
    gas_limit: Option<u64>,
    value_ptr: usize,
) -> (packet: OutgoingPacket)
    requires
        in_memory(ext.memory(), program_id_ptr as int, 32),
        in_memory(ext.memory(), payload_ptr as int, payload_len as int),
        in_memory(ext.memory(), value_ptr as int, 16),
    ensures
        packet@ == outgoing_packet(
            ext.memory(),
            program_id_ptr as int,
            payload_ptr as int,
            payload_len as int,
            gas_limit,
            value_ptr as int,
        ),
{
    let destination = ProgramId(get_fixed_bytes(ext, program_id_ptr));
    let payload = get_vec(ext, payload_ptr, payload_len);
    let value = get_u128(ext, value_ptr);
    OutgoingPacket { destination, payload, gas_limit, value }
}

/// `send`: sends the `payload_len` bytes at `payload_ptr`, with the value at
/// `value_ptr`, to the program whose identifier is at `program_id_ptr`, and
/// writes the message's identifier to `message_id_ptr`.
pub fn send<E: Ext>(
    ext: &mut E,
    program_id_ptr: i32,
    payload_ptr: i32,
    payload_len: i32,
    value_ptr: i32,
    message_id_ptr: i32,
) -> (r: Result<(), &'static str>)
    requires
        in_memory(old(ext).memory(), program_id_ptr as usize as int, 32),
        in_memory(old(ext).memory(), payload_ptr as usize as int, payload_len as usize as int),
        in_memory(old(ext).memory(), value_ptr as usize as int, 16),
        id_fits(
            old(ext).send_outcome(
                outgoing_packet(
                    old(ext).memory(),
                    program_id_ptr as usize as int,
                    payload_ptr as usize as int,
                    payload_len as usize as int,
                    None,
                    value_ptr as usize as int,
                ),
            ),
            old(ext).memory(),
            message_id_ptr as usize as int,
        ),
    ensures
        id_written(
            old(ext).send_outcome(
                outgoing_packet(
                    old(ext).memory(),
                    program_id_ptr as usize as int,
                    payload_ptr as usize as int,
                    payload_len as usize as int,
                    None,
                    value_ptr as usize as int,
                ),
            ),
            old(ext).memory(),
            message_id_ptr as usize as int,
            SEND_ERROR,
            *final(ext),
            r,
        ),
{
    let packet = read_outgoing_packet(
        ext,
        program_id_ptr as usize,
        payload_ptr as usize,
        payload_len as usize,
        None,
        value_ptr as usize,
    );
    match ext.send(packet) {
        Ok(message_id) => {
            ext.set_mem(message_id_ptr as usize, message_id.as_slice());
            Ok(())
        },
        Err(_) => Err(SEND_ERROR),
    }
}

/// `send_wgas`: as `send`, with the gas limit `gas_limit` (its bits read as
/// unsigned).
pub fn send_wgas<E: Ext>(
    ext: &mut E,
    program_id_ptr: i32,
    payload_ptr: i32,
    payload_len: i32,
    gas_limit: i64,
    value_ptr: i32,
    message_id_ptr: i32,
) -> (r: Result<(), &'static str>)
    requires
        in_memory(old(ext).memory(), program_id_ptr as usize as int, 32),
        in_memory(old(ext).memory(), payload_ptr as usize as int, payload_len as usize as int),
        in_memory(old(ext).memory(), value_ptr as usize as int, 16),
        id_fits(
            old(ext).send_outcome(
                outgoing_packet(
                    old(ext).memory(),
                    program_id_ptr as usize as int,
                    payload_ptr as usize as int,
                    payload_len as usize as int,
                    Some(gas_limit as u64),
                    value_ptr as usize as int,
                ),
            ),
            old(ext).memory(),
            message_id_ptr as usize as int,
        ),
    ensures
        id_written(
            old(ext).send_outcome(
                outgoing_packet(
                    old(ext).memory(),
                    program_id_ptr as usize as int,
                    payload_ptr as usize as int,
                    payload_len as usize as int,
                    Some(gas_limit as u64),
                    value_ptr as usize as int,
                ),
            ),
            old(ext).memory(),
            message_id_ptr as usize as int,
            SEND_ERROR,
            *final(ext),
            r,
        ),
{
    let packet = read_outgoing_packet(
        ext,
        program_id_ptr as usize,
        payload_ptr as usize,
        payload_len as usize,
        Some(gas_limit as u64),
        value_ptr as usize,
    );
    match ext.send(packet) {
        Ok(message_id) => {
            ext.set_mem(message_id_ptr as usize, message_id.as_slice());
            Ok(())
        },
        Err(_) => Err(SEND_ERROR),
    }
}

/// `send_commit`: sends the message built under `handle_ptr`, with the value
/// at `value_ptr`, to the program whose identifier is at `program_id_ptr`,
/// and writes its identifier to `message_id_ptr`.
pub fn send_commit<E: Ext>(
    ext: &mut E,
    handle_ptr: i32,
    message_id_ptr: i32,
    program_id_ptr: i32,
    value_ptr: i32,
) -> (r: Result<(), &'static str>)
    requires
        in_memory(old(ext).memory(), program_id_ptr as usize as int, 32),
        in_memory(old(ext).memory(), value_ptr as usize as int, 16),
        id_fits(
            old(ext).send_commit_outcome(
                handle_ptr as usize,
                outgoing_packet(
                    old(ext).memory(),
                    program_id_ptr as usize as int,
                    0,
                    0,
                    None,
                    value_ptr as usize as int,
                ),
            ),
            old(ext).memory(),
            message_id_ptr as usize as int,
        ),
    ensures
        id_written(
            old(ext).send_commit_outcome(
                handle_ptr as usize,
                outgoing_packet(
                    old(ext).memory(),
                    program_id_ptr as usize as int,
                    0,
                    0,
                    None,
                    value_ptr as usize as int,
                ),
            ),
            old(ext).memory(),
            message_id_ptr as usize as int,
            SEND_COMMIT_ERROR,
            *final(ext),
            r,
        ),
{
    let packet = read_outgoing_packet(
        ext,
        program_id_ptr as usize,
        0,
        0,
        None,
        value_ptr as usize,
    );
    match ext.send_commit(handle_ptr as usize, packet) {
        Ok(message_id) => {
            ext.set_mem(message_id_ptr as usize, message_id.as_slice());
            Ok(())
        },
        Err(_) => Err(SEND_COMMIT_ERROR),
    }
}

/// `send_commit_wgas`: as `send_commit`, with the gas limit `gas_limit` (its
/// bits read as unsigned).
pub fn send_commit_wgas<E: Ext>(
    ext: &mut E,
    handle_ptr: i32,
    message_id_ptr: i32,
    program_id_ptr: i32,
    gas_limit: i64,
    value_ptr: i32,
) -> (r: Result<(), &'static str>)
    requires
        in_memory(old(ext).memory(), program_id_ptr as usize as int, 32),
        in_memory(old(ext).memory(), value_ptr as usize as int, 16),
        id_fits(
            old(ext).send_commit_outcome(
                handle_ptr as usize,
                outgoing_packet(
                    old(ext).memory(),
                    program_id_ptr as usize as int,
                    0,
                    0,
                    Some(gas_limit as u64),
                    value_ptr as usize as int,
                ),
            ),
            old(ext).memory(),
            message_id_ptr as usize as int,
        ),
    ensures
        id_written(
            old(ext).send_commit_outcome(
                handle_ptr as usize,
                outgoing_packet(
                    old(ext).memory(),
                    program_id_ptr as usize as int,
                    0,
                    0,
                    Some(gas_limit as u64),
                    value_ptr as usize as int,
                ),
            ),
            old(ext).memory(),
            message_id_ptr as usize as int,
            SEND_COMMIT_ERROR,
            *final(ext),
            r,
        ),
{
    let packet = read_outgoing_packet(
        ext,
        program_id_ptr as usize,
        0,
        0,
        Some(gas_limit as u64),
        value_ptr as usize,
    );
    match ext.send_commit(handle_ptr as usize, packet) {
        Ok(message_id) => {
            ext.set_mem(message_id_ptr as usize, message_id.as_slice());
            Ok(())
        },
        Err(_) => Err(SEND_COMMIT_ERROR),
    }
}

/// `send_init`: starts building a message; returns its handle, its bits
/// read as an `i32`.
pub fn send_init<E: Ext>(ext: &mut E) -> (r: Result<i32, &'static str>)
    ensures
        final(ext).memory() == old(ext).memory(),
        ({
            let (after, res) = old(ext).send_init_outcome();
            &&& *final(ext) == after
            &&& r == match res {
                Ok(handle) => Ok::<i32, &'static str>(handle as i32),
                Err(_) => Err(SEND_INIT_ERROR),
            }
        }),
{
    match ext.send_init() {
        Ok(handle) => Ok(handle as i32),
        Err(_) => Err(SEND_INIT_ERROR),
    }
}

/// `send_push`: appends the `payload_len` bytes at `payload_ptr` to the
/// message built under `handle_ptr`.
pub fn send_push<E: Ext>(ext: &mut E, handle_ptr: i32, payload_ptr: i32, payload_len: i32) -> (r:
    Result<(), &'static str>)
    requires
        in_memory(old(ext).memory(), payload_ptr as usize as int, payload_len as usize as int),
    ensures
        final(ext).memory() == old(ext).memory(),
        ({
            let (after, res) = old(ext).send_push_outcome(
                handle_ptr as usize,
                bytes_at(old(ext).memory(), payload_ptr as usize as int, payload_len as usize as int),
            );
            *final(ext) == after && r == with_error(res, SEND_PUSH_ERROR)
        }),
{
    let payload = get_vec(ext, payload_ptr as usize, payload_len as usize);
    match ext.send_push(handle_ptr as usize, payload.as_slice()) {
        Ok(()) => Ok(()),
        Err(_) => Err(SEND_PUSH_ERROR),
    }
}

/// The program-creation request that `create_program_wgas` reads from
/// memory `m`: the code hash, the gas limit and the value lie one after the
/// other at `fl_ptr`.
pub open spec fn program_init_packet(
    m: Seq<u8>,
    fl_ptr: int,
    salt_ptr: int,
    salt_len: int,
    payload_ptr: int,
    payload_len: int,
) -> ProgramInitPacketView {
    ProgramInitPacketView {
        code_hash: bytes_at(m, fl_ptr, 32),
        salt: bytes_at(m, salt_ptr, salt_len),
        payload: bytes_at(m, payload_ptr, payload_len),
        gas_limit: u64_at(m, fl_ptr + 32),
        value: u128_at(m, fl_ptr + 40),
    }
}

/// The outcome of creating a program, with the identifier's bytes as a
/// message identifier's.
pub open spec fn program_created<E: Ext>(outcome: (E, Result<ProgramId, &'static str>)) -> (
    E,
    Result<MessageId, &'static str>,
) {
    (
        outcome.0,
        match outcome.1 {
            Ok(id) => Ok(MessageId(id.0)),
            Err(e) => Err(e),
        },
    )
}

/// `create_program_wgas`: creates a program from the code hash, gas limit
/// and value at `fl_ptr`, the salt at `salt_ptr` and the payload at
/// `payload_ptr`, and writes the new program's identifier to
/// `program_id_ptr`.
pub fn create_program_wgas<E: Ext>(
    ext: &mut E,
    fl_ptr: i32,
    salt_ptr: i32,
    salt_len: i32,
    payload_ptr: i32,
    payload_len: i32,
    program_id_ptr: i32,
) -> (r: Result<(), &'static str>)
    requires
        in_memory(old(ext).memory(), fl_ptr as usize as int, 56),
        fl_ptr as usize + 40 <= usize::MAX,
        in_memory(old(ext).memory(), salt_ptr as usize as int, salt_len as usize as int),
        in_memory(old(ext).memory(), payload_ptr as usize as int, payload_len as usize as int),
        id_fits(
            program_created(
                old(ext).create_program_outcome(
                    program_init_packet(
                        old(ext).memory(),
                        fl_ptr as usize as int,
                        salt_ptr as usize as int,
                        salt_len as usize as int,
                        payload_ptr as usize as int,
                        payload_len as usize as int,
                    ),
                ),
            ),
            old(ext).memory(),
            program_id_ptr as usize as int,
        ),
    ensures
        id_written(
            program_created(
                old(ext).create_program_outcome(
                    program_init_packet(
                        old(ext).memory(),
                        fl_ptr as usize as int,
                        salt_ptr as usize as int,
                        salt_len as usize as int,
                        payload_ptr as usize as int,
                        payload_len as usize as int,
                    ),
                ),
            ),
            old(ext).memory(),
            program_id_ptr as usize as int,
            CREATE_PROGRAM_ERROR,
            *final(ext),
            r,
        ),
{
    let fl_ptr = fl_ptr as usize;
    let code_hash: [u8; 32] = get_fixed_bytes(ext, fl_ptr);
    let gas_limit = get_u64(ext, fl_ptr + 32);
    let value = get_u128(ext, fl_ptr + 32 + 8);
    let salt = get_vec(ext, salt_ptr as usize, salt_len as usize);
    let payload = get_vec(ext, payload_ptr as usize, payload_len as usize);
    match ext.create_program(ProgramInitPacket { code_hash, salt, payload, gas_limit, value }) {
        Ok(new_actor_id) => {
            ext.set_mem(program_id_ptr as usize, new_actor_id.as_slice());
            Ok(())
        },
        Err(_) => Err(CREATE_PROGRAM_ERROR),
    }
}

/// `size`: the length of the message payload, its bits read as an `i32`.
pub fn size<E: Ext>(ext: &E) -> (r: i32)
    ensures
        r == (ext.spec_msg().len() as usize) as i32,
{
    ext.msg().len() as i32
}

/// `source`: writes the source of the message being processed to
/// `source_ptr`.
pub fn source<E: Ext>(ext: &mut E, source_ptr: i32) -> (r: Result<(), &'static str>)
    requires
        in_memory(old(ext).memory(), source_ptr as usize as int, 32),
    ensures
        *final(ext) == old(ext).after_set_mem(source_ptr as usize as int, old(ext).spec_source().0@),
        final(ext).memory() == write_bytes(old(ext).memory(), source_ptr as usize as int, old(ext).spec_source().0@),
        r is Ok,
{
    let source = ext.source();
    ext.set_mem(source_ptr as usize, source.as_slice());
    Ok(())
}

/// `program_id`: writes the identifier of the running program to
/// `source_ptr`.
pub fn program_id<E: Ext>(ext: &mut E, source_ptr: i32) -> (r: Result<(), &'static str>)
    requires
        in_memory(old(ext).memory(), source_ptr as usize as int, 32),
    ensures
        *final(ext) == old(ext).after_set_mem(source_ptr as usize as int, old(ext).spec_program_id().0@),
        final(ext).memory() == write_bytes(old(ext).memory(), source_ptr as usize as int, old(ext).spec_program_id().0@),
        r is Ok,
{
    let actor_id = ext.program_id();
    ext.set_mem(source_ptr as usize, actor_id.as_slice());
    Ok(())
}

/// `value`: writes the value sent with the message being processed to
/// `value_ptr`.
pub fn value<E: Ext>(ext: &mut E, value_ptr: i32) -> (r: Result<(), &'static str>)
    requires
        in_memory(old(ext).memory(), value_ptr as usize as int, 16),
    ensures
        *final(ext) == old(ext).after_set_mem(
            value_ptr as usize as int,
            spec_u128_to_le_bytes(old(ext).spec_value()),
        ),
        final(ext).memory() == write_bytes(
            old(ext).memory(),
            value_ptr as usize as int,
            spec_u128_to_le_bytes(old(ext).spec_value()),
        ),
        r is Ok,
{
    let v = ext.value();
    set_u128(ext, value_ptr as usize, v);
    Ok(())
}

/// `value_available`: writes the value available to the program to
/// `value_ptr`.
pub fn value_available<E: Ext>(ext: &mut E, value_ptr: i32) -> (r: Result<(), &'static str>)
    requires
        in_memory(old(ext).memory(), value_ptr as usize as int, 16),
    ensures
        *final(ext) == old(ext).after_set_mem(
            value_ptr as usize as int,
            spec_u128_to_le_bytes(old(ext).spec_value_available()),
        ),
        final(ext).memory() == write_bytes(
            old(ext).memory(),
            value_ptr as usize as int,
            spec_u128_to_le_bytes(old(ext).spec_value_available()),
        ),
        r is Ok,
{
    let v = ext.value_available();
    set_u128(ext, value_ptr as usize, v);
    Ok(())
}

/// `leave`: ends the processing of the message; always fails with the leave
/// trap, which breaks the execution.
pub fn leave<E: Ext>(ext: &mut E) -> (r: Result<(), &'static str>)
    ensures
        final(ext).memory() == old(ext).memory(),
        *final(ext) == old(ext).leave_outcome().0,
        r == Err::<(), &'static str>(LEAVE_TRAP_STR),
{
    let _ = ext.leave();
    Err(LEAVE_TRAP_STR)
}

/// `wait`: puts the message in the wait list; always fails with the wait
/// trap, which breaks the execution.
pub fn wait<E: Ext>(ext: &mut E) -> (r: Result<(), &'static str>)
    ensures
        final(ext).memory() == old(ext).memory(),
        *final(ext) == old(ext).wait_outcome().0,
        r == Err::<(), &'static str>(WAIT_TRAP_STR),
{
    let _ = ext.wait();
    Err(WAIT_TRAP_STR)
}

/// `wake`: takes the message whose identifier is at `waker_id_ptr` out of
/// the wait list.
pub fn wake<E: Ext>(ext: &mut E, waker_id_ptr: i32) -> (r: Result<(), &'static str>)
    requires
        in_memory(old(ext).memory(), waker_id_ptr as usize as int, 32),
    ensures
        final(ext).memory() == old(ext).memory(),
        (*final(ext), r) == old(ext).wake_outcome(
            bytes_at(old(ext).memory(), waker_id_ptr as usize as int, 32),
        ),
{
    let waker_id = MessageId(get_fixed_bytes(ext, waker_id_ptr as usize));
    ext.wake(waker_id)
}

/// `send` and `send_wgas` build the same message from the same memory, but
/// for the gas limit: none for `send`, the given one for `send_wgas`.
pub proof fn lemma_send_wgas_differs_in_gas_limit_only(
    m: Seq<u8>,
    program_id_ptr: int,
    payload_ptr: int,
    payload_len: int,
    gas_limit: u64,
    value_ptr: int,
)
    ensures
        outgoing_packet(m, program_id_ptr, payload_ptr, payload_len, Some(gas_limit), value_ptr)
            == (OutgoingPacketView {
            gas_limit: Some(gas_limit),
            ..outgoing_packet(m, program_id_ptr, payload_ptr, payload_len, None, value_ptr)
        }),
{
}

/// The bytes at `ptr .. ptr + len` of memory are read in memory order: the
/// `i`-th byte read is the byte at `ptr + i`.
pub proof fn lemma_bytes_at_in_order(m: Seq<u8>, ptr: int, len: int)
    requires
        in_memory(m, ptr, len),
    ensures
        bytes_at(m, ptr, len).len() == len,
        forall|i: int| 0 <= i < len ==> #[trigger] bytes_at(m, ptr, len)[i] == m[ptr + i],
{
}

/// A `u64` written to memory in little-endian order reads back whole.
pub proof fn lemma_u64_round_trip(m: Seq<u8>, ptr: int, v: u64)
    requires
        in_memory(m, ptr, 8),
    ensures
        u64_at(write_bytes(m, ptr, spec_u64_to_le_bytes(v)), ptr) == v,
{
    vstd::bytes::lemma_auto_spec_u64_to_from_le_bytes();
    lemma_read_after_write(m, ptr, spec_u64_to_le_bytes(v));
}

/// A `u128` written to memory in little-endian order reads back whole.
pub proof fn lemma_u128_round_trip(m: Seq<u8>, ptr: int, v: u128)
    requires
        in_memory(m, ptr, 16),
    ensures
        u128_at(write_bytes(m, ptr, spec_u128_to_le_bytes(v)), ptr) == v,
{
    vstd::bytes::lemma_auto_spec_u128_to_from_le_bytes();
    lemma_read_after_write(m, ptr, spec_u128_to_le_bytes(v));
}

/// The message that the `send`-like host functions build: the destination
/// is the 32 bytes at `program_id_ptr` in memory order, the payload the
/// `payload_len` bytes at `payload_ptr`, and the value the `u128` whose
/// little-endian bytes lie at `value_ptr`: where `v` was written there, the
/// value is `v`.
pub proof fn lemma_outgoing_packet_reads_memory(
    m: Seq<u8>,
    program_id_ptr: int,
    payload_ptr: int,
    payload_len: int,
    gas_limit: Option<u64>,
    value_ptr: int,
    v: u128,
)
    requires
        in_memory(m, program_id_ptr, 32),
        in_memory(m, payload_ptr, payload_len),
        in_memory(m, value_ptr, 16),
    ensures
        ({
            let p = outgoing_packet(m, program_id_ptr, payload_ptr, payload_len, gas_limit, value_ptr);
            &&& p.destination.len() == 32
            &&& forall|i: int| 0 <= i < 32 ==> #[trigger] p.destination[i] == m[program_id_ptr + i]
            &&& p.payload.len() == payload_len
            &&& forall|i: int| 0 <= i < payload_len ==> #[trigger] p.payload[i] == m[payload_ptr + i]
            &&& p.gas_limit == gas_limit
        }),
        outgoing_packet(
            write_bytes(m, value_ptr, spec_u128_to_le_bytes(v)),
            program_id_ptr,
            payload_ptr,
            payload_len,
            gas_limit,
            value_ptr,
        ).value == v,
{
    lemma_u128_round_trip(m, value_ptr, v);
}

/// The request that `create_program_wgas` builds: the code hash is the 32
/// bytes at `fl_ptr` in memory order, the gas limit the `u64` whose
/// little-endian bytes follow them and the value the `u128` after that (where
/// `g` and `v` were written there, they are `g` and `v`); the salt and
/// payload are the bytes at their pointers.
pub proof fn lemma_program_init_packet_reads_memory(
    m: Seq<u8>,
    fl_ptr: int,
    salt_ptr: int,
    salt_len: int,
    payload_ptr: int,
    payload_len: int,
    g: u64,
    v: u128,
)
    requires
        in_memory(m, fl_ptr, 56),
        in_memory(m, salt_ptr, salt_len),
        in_memory(m, payload_ptr, payload_len),
    ensures
        ({
            let p = program_init_packet(m, fl_ptr, salt_ptr, salt_len, payload_ptr, payload_len);
            &&& p.code_hash.len() == 32
            &&& forall|i: int| 0 <= i < 32 ==> #[trigger] p.code_hash[i] == m[fl_ptr + i]
            &&& p.salt.len() == salt_len
            &&& forall|i: int| 0 <= i < salt_len ==> #[trigger] p.salt[i] == m[salt_ptr + i]
            &&& p.payload.len() == payload_len
            &&& forall|i: int| 0 <= i < payload_len ==> #[trigger] p.payload[i] == m[payload_ptr + i]
        }),
        program_init_packet(
            write_bytes(m, fl_ptr + 32, spec_u64_to_le_bytes(g)),
            fl_ptr,
            salt_ptr,
            salt_len,
            payload_ptr,
            payload_len,
        ).gas_limit == g,
        program_init_packet(
            write_bytes(m, fl_ptr + 40, spec_u128_to_le_bytes(v)),
            fl_ptr,
            salt_ptr,
            salt_len,
            payload_ptr,
            payload_len,
        ).value == v,
{
    lemma_u64_round_trip(m, fl_ptr + 32, g);
    lemma_u128_round_trip(m, fl_ptr + 40, v);
}

/// The reply that `reply` builds: exit code 0, the payload read in memory
/// order, and the value written at `value_ptr` read back whole.
pub proof fn lemma_reply_packet_reads_memory(
    m: Seq<u8>,
    payload_ptr: int,
    payload_len: int,
    value_ptr: int,
    v: u128,
)
    requires
        in_memory(m, payload_ptr, payload_len),
        in_memory(m, value_ptr, 16),
    ensures
        bytes_at(m, payload_ptr, payload_len).len() == payload_len,
        forall|i: int|
            0 <= i < payload_len ==> #[trigger] bytes_at(m, payload_ptr, payload_len)[i] == m[payload_ptr
                + i],
        u128_at(write_bytes(m, value_ptr, spec_u128_to_le_bytes(v)), value_ptr) == v,
{
    lemma_u128_round_trip(m, value_ptr, v);
}

/// A host function that writes an identifier puts the identifier's 32 bytes,
/// in order, at `id_ptr` of the memory it was called with and leaves every
/// other byte; where the operation fails it leaves memory as it was and
/// reports `error`.
pub proof fn lemma_id_written_places_id<E: Ext>(
    outcome: (E, Result<MessageId, &'static str>),
    m: Seq<u8>,
    id_ptr: int,
    error: &'static str,
    after: E,
    r: Result<(), &'static str>,
)
    requires
        id_written(outcome, m, id_ptr, error, after, r),
        in_memory(m, id_ptr, 32),
    ensures
        outcome.1 matches Ok(id) ==> {
            &&& r is Ok
            &&& after.memory().len() == m.len()
            &&& bytes_at(after.memory(), id_ptr, 32) == id.0@
            &&& forall|i: int|
                0 <= i < m.len() && !(id_ptr <= i < id_ptr + 32) ==> #[trigger] after.memory()[i] == m[i]
        },
        outcome.1 is Err ==> after.memory() == m && r == Err::<(), &'static str>(error),
{
    if let Ok(id) = outcome.1 {
        lemma_read_after_write(m, id_ptr, id.0@);
    }
}

/// An operation's result with its error replaced keeps the operation's
/// success value, and any failure becomes `error`.
pub proof fn lemma_with_error<T>(r: Result<T, &'static str>, error: &'static str)
    ensures
        r matches Ok(v) ==> with_error(r, error) == Ok::<T, &'static str>(v),
        r is Err ==> with_error(r, error) == Err::<T, &'static str>(error),
{
}

/// Program creation's identifier is written as it is: its bytes are the new
/// program's identifier's, and a refusal stays a refusal.
pub proof fn lemma_program_created<E: Ext>(outcome: (E, Result<ProgramId, &'static str>))
    ensures
        program_created(outcome).0 == outcome.0,
        outcome.1 matches Ok(id) ==> program_created(outcome).1 matches Ok(mid) && mid.0@ == id.0@,
        outcome.1 is Err <==> program_created(outcome).1 is Err,
{
}

} // verus!
