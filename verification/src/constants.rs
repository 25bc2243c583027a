//! Flag values of the platform that the decisions of this crate depend on.

use vstd::prelude::*;

verus! {

/// Size in bytes of one process identifier.
pub const DWORD_SIZE: u32 = 4;

/// Right to read the memory of a process.
pub const PROCESS_VM_READ: u32 = 0x0010;

/// Right to write the memory of a process.
pub const PROCESS_VM_WRITE: u32 = 0x0020;

/// Right to allocate in, and change the protection of, the memory of a process.
pub const PROCESS_VM_OPERATION: u32 = 0x0008;

/// Right to query a process for its modules and their names.
pub const PROCESS_QUERY_INFORMATION: u32 = 0x0400;

/// The rights a candidate is opened with while its name is looked up:
/// `PROCESS_QUERY_INFORMATION` together with `PROCESS_VM_READ`.
pub const PROBE_ACCESS: u32 = 0x0410;

/// Module filter that lists 32-bit and 64-bit modules alike.
pub const LIST_MODULES_ALL: u32 = 0x03;

/// Allocation type that commits the pages of a new region.
pub const MEM_COMMIT: u32 = 0x1000;

/// Page protection that allows reading, writing and executing.
pub const PAGE_EXECUTE_READWRITE: u32 = 0x40;

/// How many process identifiers are asked for when the caller names no bound.
pub const DEFAULT_MAX_NB_PROCESSES: u32 = 1024;

/// The probing rights are exactly the two rights they are made of.
pub proof fn lemma_probe_access_is_query_and_read()
    ensures
        PROBE_ACCESS == PROCESS_QUERY_INFORMATION | PROCESS_VM_READ,
{
    assert(0x0410u32 == 0x0400u32 | 0x0010u32) by (bit_vector);
}

} // verus!
