//! Ownership of one operating-system handle.

use vstd::prelude::*;
use windows::Win32::Foundation::HANDLE;

verus! {

/// The raw value a guard holds once it no longer owns a handle.
pub const RELEASED: isize = 0;

/// The raw values that never name an open handle.
pub open spec fn is_invalid_raw(raw: isize) -> bool {
    raw == 0 || raw == -1
}

/// What closing does to a raw handle value: the value left in the guard, and
/// the handle that has to be handed to the platform's close primitive, if any.
pub open spec fn closing(raw: isize) -> (isize, Option<isize>) {
    if is_invalid_raw(raw) {
        (RELEASED, None)
    } else {
        (RELEASED, Some(raw))
    }
}

/// Calls `HANDLE::is_invalid` of the `windows` crate on the given raw value.
///
/// Trusted: that method compares the wrapped integer with the two sentinels
/// `-1` and `0` and does nothing else.
#[verifier::external_body]
fn raw_is_invalid(raw: isize) -> (invalid: bool)
    ensures
        invalid == is_invalid_raw(raw),
{
    HANDLE(raw).is_invalid()
}

/// Sole owner of one handle value. It is neither `Clone` nor `Copy`, so two
/// live guards never share a handle they were not both given.
#[derive(Debug, PartialEq, Eq)]
pub struct HandleGuard {
    raw: isize,
}

impl View for HandleGuard {
    type V = isize;

    closed spec fn view(&self) -> isize {
        self.raw
    }
}

impl HandleGuard {
    /// True while the guard owns a handle that has not been closed.
    pub open spec fn is_open(&self) -> bool {
        !is_invalid_raw(self@)
    }

    /// Takes ownership of `raw`.
    pub fn new(raw: isize) -> (guard: HandleGuard)
        ensures
            guard@ == raw,
    {
        HandleGuard { raw }
    }

    /// The raw value, for handing to the platform while the guard lives.
    pub fn raw(&self) -> (raw: isize)
        ensures
            raw == self@,
    {
        self.raw
    }

    /// Whether the guard holds one of the invalid sentinels.
    pub fn is_invalid(&self) -> (invalid: bool)
        ensures
            invalid == !self.is_open(),
    {
        raw_is_invalid(self.raw)
    }

    /// Gives up the handle. The first call on an open guard returns the handle
    /// that the caller must now pass to the platform's close primitive; every
    /// later call returns `None`, so the primitive is reached at most once.
    pub fn close(&mut self) -> (to_close: Option<isize>)
        ensures
            (final(self)@, to_close) == closing(old(self)@),
    {
        if raw_is_invalid(self.raw) {
            self.raw = RELEASED;
            None
        } else {
            let raw = self.raw;
            self.raw = RELEASED;
            Some(raw)
        }
    }
}

/// Closing is idempotent: whatever the guard held, a second close finds
/// nothing to hand to the platform and leaves the guard as the first close
/// left it, so the outcome of the first close stands.
pub proof fn lemma_close_is_idempotent(raw: isize)
    ensures
        closing(closing(raw).0) == (closing(raw).0, None::<isize>),
        closing(raw).1 is Some <==> !is_invalid_raw(raw),
        closing(raw).1 is Some ==> closing(raw).1 == Some(raw),
{
}

} // verus!
