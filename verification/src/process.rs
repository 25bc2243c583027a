//! A process under instrumentation, and what the platform's way of listing
//! processes and modules asks of its caller.

use crate::constants::DWORD_SIZE;
use crate::handle::HandleGuard;
use vstd::prelude::*;

verus! {

/// One process under instrumentation.
#[derive(Debug, PartialEq, Eq)]
pub struct Process {
    /// The access handle, owned by this value alone.
    pub handle: HandleGuard,
    /// Where the primary module is loaded: the origin of every pointer chain.
    pub module_base: usize,
    /// The process identifier.
    pub pid: u32,
    /// The base file name of the primary module, as the platform spelled it.
    pub name: String,
}

/// A process as contracts see it.
pub struct ProcessView {
    pub handle: isize,
    pub module_base: usize,
    pub pid: u32,
    pub name: Seq<char>,
}

impl View for Process {
    type V = ProcessView;

    open spec fn view(&self) -> ProcessView {
        ProcessView {
            handle: self.handle@,
            module_base: self.module_base,
            pid: self.pid,
            name: self.name@,
        }
    }
}

/// The two ways the platform lists the modules of a process.
#[derive(Debug, Clone, Copy, PartialEq, Eq, Structural)]
pub enum ModuleListing {
    /// The listing that takes no filter.
    Plain,
    /// The listing that takes a filter, asked with `LIST_MODULES_ALL`.
    Filtered,
}

/// The listing that fits a process: the filtered one where the platform says
/// that the process runs under its 32-bit emulation, the plain one elsewhere.
pub open spec fn listing_for(wow64: bool) -> ModuleListing {
    if wow64 {
        ModuleListing::Filtered
    } else {
        ModuleListing::Plain
    }
}

/// The listing to ask for, given the platform's word on 32-bit emulation.
pub fn module_listing(wow64: bool) -> (listing: ModuleListing)
    ensures
        listing == listing_for(wow64),
{
    if wow64 {
        ModuleListing::Filtered
    } else {
        ModuleListing::Plain
    }
}

/// The most identifiers a buffer can be asked to hold: its size in bytes has
/// to fit the platform's 32-bit count.
pub const MAX_PID_CAPACITY: u32 = 0x3fff_ffff;

/// How many identifiers to make room for when at most `max` are wanted, and
/// the size of that room in bytes.
pub open spec fn pid_buffer(max: u32) -> (u32, u32) {
    let capacity = if max <= MAX_PID_CAPACITY {
        max
    } else {
        MAX_PID_CAPACITY
    };
    (capacity, (capacity * DWORD_SIZE) as u32)
}

/// Sizes the buffer for an enumeration of at most `max` identifiers: the
/// number of identifiers it holds, and its size in bytes.
pub fn size_pid_buffer(max: u32) -> (sizes: (u32, u32))
    ensures
        sizes == pid_buffer(max),
{
    let capacity: u32 = if max <= MAX_PID_CAPACITY {
        max
    } else {
        MAX_PID_CAPACITY
    };
    (capacity, capacity * DWORD_SIZE)
}

/// The identifiers the platform reported: as many of the buffer's first as
/// the bytes it wrote make up.
pub open spec fn reported(buffer: Seq<u32>, bytes_written: u32) -> Seq<u32> {
    if bytes_written / DWORD_SIZE < buffer.len() {
        buffer.take((bytes_written / DWORD_SIZE) as int)
    } else {
        buffer
    }
}

/// Cuts the buffer of an enumeration down to the identifiers the platform
/// reported to have written.
pub fn reported_pids(buffer: Vec<u32>, bytes_written: u32) -> (pids: Vec<u32>)
    ensures
        pids@ == reported(buffer@, bytes_written),
{
    let mut pids = buffer;
    let count: u32 = bytes_written / DWORD_SIZE;
    if (count as usize) < pids.len() {
        pids.truncate(count as usize);
        assert(pids@ =~= buffer@.take(count as int));
    }
    pids
}

/// An enumeration that fills its buffer may have left identifiers out. The
/// search does not ask again by itself; the caller who minds does so with a
/// larger bound.
pub fn may_be_truncated(count: usize, capacity: u32) -> (full: bool)
    ensures
        full == (count >= capacity),
{
    count >= capacity as usize
}

} // verus!
