//! A read/write handle on another process's memory, over `process_memory`.

use process_memory::{
    Architecture, CopyAddress, ProcessHandle, ProcessHandleExt, PutAddress, TryIntoProcessHandle,
};
use vstd::prelude::*;

verus! {

#[verifier::external_type_specification]
#[verifier::external_body]
pub struct ExArchitecture(Architecture);

#[verifier::external_type_specification]
#[verifier::external_body]
pub struct ExIoError(std::io::Error);

/// One write made through a handle: address, bytes, and whether it succeeded.
pub type WriteRecord = (usize, Seq<u8>, bool);

/// A process handle and the id of the process it is for, with the writes
/// made through it, in order.
pub struct Handle {
    pub inner: ProcessHandle,
    pub pid: usize,
    pub writes: Ghost<Seq<WriteRecord>>,
}

/// Relies on `process_memory::TryIntoProcessHandle` for a pid, which on Linux
/// pairs the pid with the native pointer width.
#[verifier::external_body]
fn process_handle(pid: usize) -> (r: Result<ProcessHandle, std::io::Error>) {
    (pid as i32).try_into_process_handle()
}

/// Relies on `process_memory::ProcessHandleExt::null_type`: a handle on no
/// process (pid 0).
#[verifier::external_body]
fn null_process_handle() -> (r: ProcessHandle)
    ensures
        r.0 == 0,
{
    ProcessHandle::null_type()
}

impl Handle {
    pub fn new(pid: usize) -> (r: Result<Self, std::io::Error>)
        ensures
            r matches Ok(h) ==> h.pid == pid && h.writes@ == Seq::<WriteRecord>::empty(),
    {
        let inner = process_handle(pid)?;
        Ok(Handle { inner, pid, writes: Ghost(Seq::empty()) })
    }

    /// A handle on no process (pid 0).
    pub fn null_type() -> (r: Self)
        ensures
            r.pid == 0,
            r.inner.0 == 0,
            r.writes@ == Seq::<WriteRecord>::empty(),
    {
        Handle { inner: null_process_handle(), pid: 0, writes: Ghost(Seq::empty()) }
    }

    /// Writes `buf` at `addr` and records the write.
    pub fn write(&mut self, addr: usize, buf: &[u8]) -> (r: Result<(), std::io::Error>)
        ensures
            final(self).writes@ == old(self).writes@.push((addr, buf@, r is Ok)),
            final(self).inner == old(self).inner,
            final(self).pid == old(self).pid,
    {
        let r = self.put_address(addr, buf);
        let ok = r.is_ok();
        self.writes = Ghost(self.writes@.push((addr, buf@, ok)));
        r
    }

    /// Relies on `process_memory::ProcessHandleExt::check_handle`: whether the
    /// handle's pid is not 0.
    #[verifier::external_body]
    pub fn check_handle(&self) -> (r: bool)
        ensures
            r == (self.inner.0 != 0),
    {
        self.inner.check_handle()
    }

    /// Relies on `process_memory::CopyAddress::copy_address`: fills `buf`
    /// from the process's memory at `addr`; what it reads is up to the process.
    #[verifier::external_body]
    pub fn copy_address(&self, addr: usize, buf: &mut [u8]) -> (r: Result<(), std::io::Error>)
        ensures
            final(buf)@.len() == old(buf)@.len(),
    {
        self.inner.copy_address(addr, buf)
    }

    /// Relies on `process_memory::PutAddress::put_address`: writes `buf` into
    /// the process's memory at `addr`.
    #[verifier::external_body]
    pub fn put_address(&self, addr: usize, buf: &[u8]) -> (r: Result<(), std::io::Error>) {
        self.inner.put_address(addr, buf)
    }

    /// Relies on `process_memory::CopyAddress::get_offset` with two offsets,
    /// the second 0: the pointer stored at `offsets[0]`.
    #[verifier::external_body]
    pub fn get_offset(&self, offsets: &[usize]) -> (r: Result<usize, std::io::Error>)
        requires
            offsets@.len() == 2,
            offsets@[1] == 0,
    {
        self.inner.get_offset(offsets)
    }
}

} // verus!
