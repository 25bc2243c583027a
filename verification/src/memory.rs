//! Addresses in a foreign address space, and the pointer chains that lead to
//! them.
//!
//! Nothing here reads or writes foreign memory. A chain is resolved by a walk
//! that names the address to read next and takes the value that was found
//! there; the caller does the reading.

use crate::error::{MemoryError, OsError};
use crate::process::Process;
use vstd::prelude::*;

verus! {

/// A recipe for reaching a field behind several levels of indirection. It
/// describes addresses and owns nothing.
#[derive(Debug, Clone, PartialEq, Eq)]
pub struct MultiLevelPointer {
    /// Offset of the root pointer from the base of the target's main module.
    pub base_address: usize,
    /// Byte offsets along the chain. All but the last are applied and then
    /// dereferenced; the last is only added.
    pub offsets: Vec<usize>,
}

/// The address `offset` bytes past `address`. Addresses are pointer-sized and
/// their arithmetic wraps around.
pub open spec fn displaced(address: usize, offset: usize) -> usize {
    if address + offset > usize::MAX {
        (address + offset - (usize::MAX + 1)) as usize
    } else {
        (address + offset) as usize
    }
}

/// The address `offset` bytes past `address`.
pub fn displace(address: usize, offset: usize) -> (moved: usize)
    ensures
        moved == displaced(address, offset),
{
    address.wrapping_add(offset)
}

/// A region the platform says it allocated starts at an address that is not
/// null; null is how the platform reports that it allocated nothing. The same
/// holds of the address of an entry point that was looked up.
pub open spec fn granted(address: usize) -> Option<usize> {
    if address == 0 {
        None
    } else {
        Some(address)
    }
}

/// Tells an address the platform handed out from its report of failure.
pub fn check_address(address: usize) -> (checked: Option<usize>)
    ensures
        checked == granted(address),
{
    if address == 0 {
        None
    } else {
        Some(address)
    }
}

/// What a transfer of `requested` bytes amounts to, given what the platform
/// reported of it: its failure, a transfer of another size than the value
/// has, or the value in full.
pub open spec fn transfer_outcome(requested: usize, reported: Result<usize, OsError>) -> Result<
    usize,
    MemoryError,
> {
    match reported {
        Err(e) => Err(MemoryError::Os(e)),
        Ok(transferred) => if transferred == requested {
            Ok(transferred)
        } else {
            Err(MemoryError::ShortTransfer { requested, transferred })
        },
    }
}

/// Judges a typed read or write of `requested` bytes by the platform's
/// report. A transfer that moved another number of bytes than the value has
/// is no success.
pub fn complete_transfer(requested: usize, reported: Result<usize, OsError>) -> (outcome: Result<
    usize,
    MemoryError,
>)
    ensures
        outcome == transfer_outcome(requested, reported),
{
    match reported {
        Err(e) => Err(MemoryError::Os(e)),
        Ok(transferred) => {
            if transferred == requested {
                Ok(transferred)
            } else {
                Err(MemoryError::ShortTransfer { requested, transferred })
            }
        },
    }
}

/// A walk along a pointer chain, as contracts see it.
pub struct WalkState {
    /// The offsets of the chain.
    pub offsets: Seq<usize>,
    /// The offset of the wanted field in the structure the chain ends at.
    pub extra_offset: usize,
    /// How many offsets have been followed.
    pub level: nat,
    /// The address whose pointer-sized contents the walk is waiting for.
    pub pending: usize,
}

/// What a step of a walk leads to, as contracts see it.
pub enum WalkStepView {
    /// The walk goes on from this state: read a pointer at this address.
    Read(WalkState, usize),
    /// The chain ends at this address.
    Resolved(usize),
    /// A read failed, and the walk with it.
    Failed(MemoryError),
}

/// The state a walk starts in: it waits for the root pointer, which lies
/// `base_address` bytes into the main module.
pub open spec fn walk_start(
    module_base: usize,
    base_address: usize,
    offsets: Seq<usize>,
    extra_offset: usize,
) -> WalkState {
    WalkState { offsets, extra_offset, level: 0, pending: displaced(module_base, base_address) }
}

/// One step of a walk. `read` is what reading a pointer at the pending
/// address gave.
///
/// A failed read ends the walk with the failure. Without offsets the root
/// pointer itself, moved by the extra offset, is the result. With offsets,
/// each but the last is added to the pointer just read and the sum is read in
/// turn; the last is added, with the extra offset, and nothing more is read.
pub open spec fn walk_next(s: WalkState, read: Result<usize, MemoryError>) -> WalkStepView {
    match read {
        Err(e) => WalkStepView::Failed(e),
        Ok(pointer) => if s.offsets.len() == 0 {
            WalkStepView::Resolved(displaced(pointer, s.extra_offset))
        } else if s.level + 1 < s.offsets.len() {
            let address = displaced(pointer, s.offsets[s.level as int]);
            WalkStepView::Read(
                WalkState { level: s.level + 1, pending: address, ..s },
                address,
            )
        } else {
            WalkStepView::Resolved(displaced(pointer, displaced(s.offsets.last(), s.extra_offset)))
        },
    }
}

/// Where a walk ends when every read is answered by `memory`.
pub open spec fn walk_end(memory: spec_fn(usize) -> Result<usize, MemoryError>, s: WalkState)
    -> Result<usize, MemoryError>
    decreases s.offsets.len() - s.level,
{
    match walk_next(s, memory(s.pending)) {
        WalkStepView::Read(after, address) => walk_end(memory, after),
        WalkStepView::Resolved(address) => Ok(address),
        WalkStepView::Failed(e) => Err(e),
    }
}

/// The pointer reached from `pointer` by adding each offset in turn and
/// reading, in `memory`, the pointer stored at the sum.
pub open spec fn followed(
    memory: spec_fn(usize) -> Result<usize, MemoryError>,
    pointer: usize,
    offsets: Seq<usize>,
) -> Result<usize, MemoryError>
    decreases offsets.len(),
{
    if offsets.len() == 0 {
        Ok(pointer)
    } else {
        match memory(displaced(pointer, offsets[0])) {
            Ok(target) => followed(memory, target, offsets.drop_first()),
            Err(e) => Err(e),
        }
    }
}

/// The address a pointer chain describes in a given `memory`.
pub open spec fn resolved_address(
    memory: spec_fn(usize) -> Result<usize, MemoryError>,
    module_base: usize,
    base_address: usize,
    offsets: Seq<usize>,
    extra_offset: usize,
) -> Result<usize, MemoryError> {
    match memory(displaced(module_base, base_address)) {
        Err(e) => Err(e),
        Ok(root) => if offsets.len() == 0 {
            Ok(displaced(root, extra_offset))
        } else {
            match followed(memory, root, offsets.drop_last()) {
                Ok(structure) => Ok(displaced(structure, displaced(offsets.last(), extra_offset))),
                Err(e) => Err(e),
            }
        },
    }
}

/// A walk along a pointer chain.
#[derive(Debug)]
pub struct PointerWalk {
    offsets: Vec<usize>,
    extra_offset: usize,
    level: usize,
    pending: usize,
}

impl View for PointerWalk {
    type V = WalkState;

    closed spec fn view(&self) -> WalkState {
        WalkState {
            offsets: self.offsets@,
            extra_offset: self.extra_offset,
            level: self.level as nat,
            pending: self.pending,
        }
    }
}

/// What a step of a walk leads to.
#[derive(Debug)]
pub enum WalkStep {
    /// The walk goes on: read a pointer at this address and answer with it.
    Read(PointerWalk, usize),
    /// The chain ends at this address.
    Resolved(usize),
    /// A read failed, and the walk with it.
    Failed(MemoryError),
}

impl View for WalkStep {
    type V = WalkStepView;

    open spec fn view(&self) -> WalkStepView {
        match *self {
            WalkStep::Read(walk, address) => WalkStepView::Read(walk@, address),
            WalkStep::Resolved(address) => WalkStepView::Resolved(address),
            WalkStep::Failed(e) => WalkStepView::Failed(e),
        }
    }
}

impl MultiLevelPointer {
    /// A new recipe that follows `multi_level_pointer` and then the further
    /// `offsets`. The recipe it was derived from is left as it was.
    pub fn from(multi_level_pointer: &MultiLevelPointer, offsets: Vec<usize>) -> (extended:
        MultiLevelPointer)
        ensures
            extended.base_address == multi_level_pointer.base_address,
            extended.offsets@ == multi_level_pointer.offsets@ + offsets@,
    {
        let mut offsets = offsets;
        let mut new_offsets = multi_level_pointer.offsets.clone();
        new_offsets.append(&mut offsets);
        MultiLevelPointer { base_address: multi_level_pointer.base_address, offsets: new_offsets }
    }

    /// Starts the walk that resolves this recipe in `process`, for the field
    /// `offset` bytes into the structure the chain ends at. Returns the walk
    /// and the address of the root pointer, which is the first to be read.
    pub fn walk(&self, process: &Process, offset: usize) -> (started: (PointerWalk, usize))
        ensures
            started.0@ == walk_start(process.module_base, self.base_address, self.offsets@, offset),
            started.1 == started.0@.pending,
    {
        let root: usize = displace(process.module_base, self.base_address);
        (
            PointerWalk {
                offsets: self.offsets.clone(),
                extra_offset: offset,
                level: 0,
                pending: root,
            },
            root,
        )
    }
}

impl PointerWalk {
    /// The address whose contents the walk is waiting for.
    pub fn pending(&self) -> (address: usize)
        ensures
            address == self@.pending,
    {
        self.pending
    }

    /// One step of the walk: takes what reading a pointer at the pending
    /// address gave and says what follows.
    pub fn step(self, read: Result<usize, MemoryError>) -> (step: WalkStep)
        ensures
            step@ == walk_next(self@, read),
    {
        let PointerWalk { offsets, extra_offset, level, pending: _ } = self;
        match read {
            Err(e) => WalkStep::Failed(e),
            Ok(pointer) => {
                let count: usize = offsets.len();
                if count == 0 {
                    WalkStep::Resolved(displace(pointer, extra_offset))
                } else if level < count - 1 {
                    let address: usize = displace(pointer, offsets[level]);
                    WalkStep::Read(
                        PointerWalk { offsets, extra_offset, level: level + 1, pending: address },
                        address,
                    )
                } else {
                    WalkStep::Resolved(
                        displace(pointer, displace(offsets[count - 1], extra_offset)),
                    )
                }
            },
        }
    }
}

/// A walk follows the chain: answered from `memory`, the walk that
/// `MultiLevelPointer::walk` starts ends at the address that the recipe
/// describes in `memory`, or with the failure of the first read that fails.
pub proof fn lemma_walk_resolves(
    memory: spec_fn(usize) -> Result<usize, MemoryError>,
    module_base: usize,
    base_address: usize,
    offsets: Seq<usize>,
    extra_offset: usize,
)
    ensures
        walk_end(memory, walk_start(module_base, base_address, offsets, extra_offset))
            == resolved_address(memory, module_base, base_address, offsets, extra_offset),
{
    let start = walk_start(module_base, base_address, offsets, extra_offset);
    match memory(start.pending) {
        Err(e) => {},
        Ok(root) => {
            if offsets.len() > 0 {
                lemma_walk_from(memory, start, root);
                assert(offsets.subrange(0, offsets.len() - 1) =~= offsets.drop_last());
            }
        },
    }
}

/// From any level of a chain, a walk that has just read `pointer` goes on as
/// following the offsets that are left, but for the last, from `pointer`.
proof fn lemma_walk_from(
    memory: spec_fn(usize) -> Result<usize, MemoryError>,
    s: WalkState,
    pointer: usize,
)
    requires
        s.level < s.offsets.len(),
        memory(s.pending) == Ok::<usize, MemoryError>(pointer),
    ensures
        walk_end(memory, s) == match followed(
            memory,
            pointer,
            s.offsets.subrange(s.level as int, s.offsets.len() - 1),
        ) {
            Ok(structure) => Ok(
                displaced(structure, displaced(s.offsets.last(), s.extra_offset)),
            ),
            Err(e) => Err(e),
        },
    decreases s.offsets.len() - s.level,
{
    let rest = s.offsets.subrange(s.level as int, s.offsets.len() - 1);
    if s.level + 1 < s.offsets.len() {
        let address = displaced(pointer, s.offsets[s.level as int]);
        let after = WalkState { level: s.level + 1, pending: address, ..s };
        assert(rest[0] == s.offsets[s.level as int]);
        assert(rest.drop_first() =~= s.offsets.subrange(after.level as int, s.offsets.len() - 1));
        match memory(address) {
            Ok(target) => {
                lemma_walk_from(memory, after, target);
            },
            Err(e) => {},
        }
    } else {
        assert(rest.len() == 0);
    }
}

/// Without offsets nothing but the root pointer is read, and the chain ends
/// at the root pointer moved by the extra offset: at their sum, where that is
/// an address at all.
pub proof fn lemma_empty_chain(
    memory: spec_fn(usize) -> Result<usize, MemoryError>,
    module_base: usize,
    base_address: usize,
    extra_offset: usize,
    root: usize,
)
    requires
        memory(displaced(module_base, base_address)) == Ok::<usize, MemoryError>(root),
    ensures
        walk_end(memory, walk_start(module_base, base_address, Seq::empty(), extra_offset)) == Ok::<
            usize,
            MemoryError,
        >(displaced(root, extra_offset)),
        root + extra_offset <= usize::MAX ==> displaced(root, extra_offset) == root
            + extra_offset,
{
}

/// With three offsets the walk reads the root pointer, then the pointer at
/// the root pointer plus the first offset, then the pointer at that one plus
/// the second offset, and ends at the last pointer read plus the third offset
/// plus the extra offset: at their sum, where that is an address at all.
pub proof fn lemma_three_level_chain(
    memory: spec_fn(usize) -> Result<usize, MemoryError>,
    module_base: usize,
    base_address: usize,
    o1: usize,
    o2: usize,
    o3: usize,
    extra_offset: usize,
    root: usize,
    first: usize,
    second: usize,
)
    requires
        memory(displaced(module_base, base_address)) == Ok::<usize, MemoryError>(root),
        memory(displaced(root, o1)) == Ok::<usize, MemoryError>(first),
        memory(displaced(first, o2)) == Ok::<usize, MemoryError>(second),
    ensures
        ({
            let start = walk_start(module_base, base_address, seq![o1, o2, o3], extra_offset);
            let at_first = WalkState { level: 1, pending: displaced(root, o1), ..start };
            let at_second = WalkState { level: 2, pending: displaced(first, o2), ..start };
            let end = displaced(second, displaced(o3, extra_offset));
            &&& start.pending == displaced(module_base, base_address)
            &&& walk_next(start, Ok(root)) == WalkStepView::Read(at_first, displaced(root, o1))
            &&& walk_next(at_first, Ok(first)) == WalkStepView::Read(
                at_second,
                displaced(first, o2),
            )
            &&& walk_next(at_second, Ok(second)) == WalkStepView::Resolved(end)
            &&& walk_end(memory, start) == Ok::<usize, MemoryError>(end)
            &&& second + o3 + extra_offset <= usize::MAX ==> end == second + o3 + extra_offset
        }),
{
    let start = walk_start(module_base, base_address, seq![o1, o2, o3], extra_offset);
    let at_first = WalkState { level: 1, pending: displaced(root, o1), ..start };
    let at_second = WalkState { level: 2, pending: displaced(first, o2), ..start };
    assert(walk_next(at_second, memory(at_second.pending)) == WalkStepView::Resolved(
        displaced(second, displaced(o3, extra_offset)),
    ));
    assert(walk_end(memory, at_first) == walk_end(memory, at_second));
    assert(walk_end(memory, start) == walk_end(memory, at_first));
}

} // verus!
