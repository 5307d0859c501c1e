//! The state that the wasmi backend's host functions work with: the
//! externalities, the program's memory, and the reason of the last trap.
//!
//! The memory is a `wasmi` memory instance. Its contents and size sit behind
//! shared references and change through them, so what a read gives back, and
//! whether an access lies inside the memory, is decided by the instance at
//! the time of the call.

use crate::ext::{Ext, WasmPageNumber};
use vstd::prelude::*;

verus! {

#[verifier::external_type_specification]
#[verifier::external_body]
pub struct ExMemoryRef(wasmi::MemoryRef);

#[verifier::external_type_specification]
#[verifier::external_body]
pub struct ExWasmiError(wasmi::Error);

/// Errors of memory accesses.
#[derive(Clone, Copy, Debug, PartialEq, Eq, Structural)]
pub enum MemoryError {
    /// The accessed interval lies outside memory.
    OutOfBounds,
    /// The bytes read could not be decoded.
    MemoryAccessError,
}

/// Program memory as the externalities see it.
pub struct MemoryWrap(pub wasmi::MemoryRef);

/// Copies `target.len()` bytes of `memory` at `offset` into `target`, by
/// `wasmi::MemoryInstance::get_into`. It fails, leaving `target` as it was,
/// when the interval lies outside the memory. The memory's current size is
/// not visible here, so the only interval of which the contract says that it
/// succeeds is the empty one at offset 0, which lies in every memory.
#[verifier::external_body]
fn memory_get_into(memory: &wasmi::MemoryRef, offset: u32, target: &mut [u8]) -> (r: Result<
    (),
    wasmi::Error,
>)
    ensures
        final(target)@.len() == old(target)@.len(),
        r is Err ==> final(target)@ == old(target)@,
        offset == 0 && old(target)@.len() == 0 ==> r is Ok,
{
    memory.get_into(offset, target)
}

/// Writes `value` to `memory` at `offset`, by `wasmi::MemoryInstance::set`.
/// It fails when the interval lies outside the memory. The memory's current
/// size is not visible here, so the only interval of which the contract says
/// that it succeeds is the empty one at offset 0, which lies in every memory.
#[verifier::external_body]
fn memory_set(memory: &wasmi::MemoryRef, offset: u32, value: &[u8]) -> (r: Result<
    (),
    wasmi::Error,
>)
    ensures
        offset == 0 && value@.len() == 0 ==> r is Ok,
{
    memory.set(offset, value)
}

/// The state of a host function call.
pub struct Runtime<'a, E: Ext, F> {
    /// The externalities.
    pub ext: &'a mut E,
    /// The program's memory.
    pub memory: &'a wasmi::MemoryRef,
    /// The program's memory as the externalities see it.
    pub memory_wrap: &'a mut MemoryWrap,
    /// The reason of the last trap raised by a host function.
    pub err: F,
}

impl<'a, E: Ext, F> Runtime<'a, E, F> {
    /// Bundles the state of a host function call.
    pub fn new(ext: &'a mut E, memory: &'a wasmi::MemoryRef, memory_wrap: &'a mut MemoryWrap, err: F) -> (r: Self)
        ensures
            *r.ext == *old(ext),
            *final(r.ext) == *final(ext),
            r.memory == memory,
            *r.memory_wrap == *old(memory_wrap),
            *final(r.memory_wrap) == *final(memory_wrap),
            r.err == err,
    {
        Runtime { ext, memory, memory_wrap, err }
    }

    /// A mutable reference to the externalities.
    pub fn ext(&mut self) -> (r: &mut E)
        ensures
            *r == *old(self).ext,
            *final(self).ext == *final(r),
            final(self).err == old(self).err,
            final(self).memory == old(self).memory,
    {
        self.ext
    }

    /// A mutable reference to the memory as the externalities see it.
    pub fn memory_wrap(&mut self) -> (r: &mut MemoryWrap)
        ensures
            *r == *old(self).memory_wrap,
            *final(self).memory_wrap == *final(r),
            *final(self).ext == *old(self).ext,
            final(self).err == old(self).err,
    {
        self.memory_wrap
    }

    /// Stores the reason of a trap raised by a host function.
    pub fn set_err(&mut self, err: F)
        ensures
            final(self).err == err,
            *final(self).ext == *old(self).ext,
            final(self).memory == old(self).memory,
            *final(self).memory_wrap == *old(self).memory_wrap,
    {
        self.err = err;
    }

    /// Allocates `pages` new pages in the program's memory; returns the
    /// number of the first one.
    pub fn alloc_pages(&mut self, pages: u32) -> (r: Result<WasmPageNumber, &'static str>)
        ensures
            (*final(self).ext, r) == old(self).ext.alloc_pages_outcome(WasmPageNumber(pages)),
            final(self).err == old(self).err,
            final(self).memory == old(self).memory,
    {
        self.ext.alloc_pages(WasmPageNumber(pages))
    }

    /// Reads `len` bytes of memory at `ptr`; fails with `OutOfBounds` when
    /// they do not lie inside the memory.
    pub fn read_sandbox_memory(&self, ptr: u32, len: u32) -> (r: Result<Vec<u8>, MemoryError>)
        ensures
            match r {
                Ok(buf) => buf@.len() == len,
                Err(e) => e == MemoryError::OutOfBounds,
            },
            ptr == 0 && len == 0 ==> r is Ok,
    {
        let mut buf: Vec<u8> = vec![0u8; len as usize];
        match memory_get_into(self.memory, ptr, buf.as_mut_slice()) {
            Ok(()) => Ok(buf),
            Err(_) => Err(MemoryError::OutOfBounds),
        }
    }

    /// Reads `buf.len()` bytes of memory at `ptr` into `buf`; fails with
    /// `OutOfBounds`, leaving `buf` as it was, when they do not lie inside
    /// the memory.
    pub fn read_sandbox_memory_into_buf(&self, ptr: u32, buf: &mut [u8]) -> (r: Result<(), MemoryError>)
        ensures
            final(buf)@.len() == old(buf)@.len(),
            r is Err ==> r == Err::<(), MemoryError>(MemoryError::OutOfBounds) && final(buf)@ == old(buf)@,
            ptr == 0 && old(buf)@.len() == 0 ==> r is Ok,
    {
        match memory_get_into(self.memory, ptr, buf) {
            Ok(()) => Ok(()),
            Err(_) => Err(MemoryError::OutOfBounds),
        }
    }

    /// Writes `buf` to memory at `out_ptr`; fails with `OutOfBounds` when
    /// the interval does not lie inside the memory.
    pub fn write_sandbox_output(&mut self, out_ptr: u32, buf: &[u8]) -> (r: Result<(), MemoryError>)
        ensures
            r is Err ==> r == Err::<(), MemoryError>(MemoryError::OutOfBounds),
            out_ptr == 0 && buf@.len() == 0 ==> r is Ok,
            *final(self).ext == *old(self).ext,
            final(self).err == old(self).err,
    {
        match memory_set(self.memory, out_ptr, buf) {
            Ok(()) => Ok(()),
            Err(_) => Err(MemoryError::OutOfBounds),
        }
    }
}

} // verus!
