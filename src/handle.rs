use vstd::prelude::*;

verus! {

/// An opaque handle to a loaded library, as the operating system issued it.
///
/// The raw value zero is the invalid sentinel: it stands for a library that
/// was never opened or that has already been released.
#[derive(Clone, Copy, Debug, PartialEq, Eq, Structural)]
pub struct LibraryHandle {
    raw: usize,
}

impl View for LibraryHandle {
    type V = usize;

    closed spec fn view(&self) -> usize {
        self.raw
    }
}

impl LibraryHandle {
    /// Whether a handle with this view is backed by a real resource.
    pub open spec fn spec_is_valid(&self) -> bool {
        self@ != 0
    }

    /// The invalid sentinel.
    pub fn invalid() -> (r: LibraryHandle)
        ensures
            r@ == 0,
            !r.spec_is_valid(),
    {
        LibraryHandle { raw: 0 }
    }

    /// Wraps a raw handle value returned by the operating system.
    pub fn from_raw(raw: usize) -> (r: LibraryHandle)
        ensures
            r@ == raw,
    {
        LibraryHandle { raw }
    }

    /// The raw handle value, to hand back to the operating system.
    pub fn raw(&self) -> (r: usize)
        ensures
            r == self@,
    {
        self.raw
    }

    pub fn is_valid(&self) -> (r: bool)
        ensures
            r == self.spec_is_valid(),
    {
        self.raw != 0
    }

    /// Puts the invalid sentinel in place of this handle and hands out the
    /// handle it held, where that one was valid.
    pub fn take(&mut self) -> (r: Option<LibraryHandle>)
        ensures
            r == release_result(*old(self)),
            final(self)@ == 0,
    {
        let mut held = LibraryHandle::invalid();
        core::mem::swap(self, &mut held);
        if held.is_valid() {
            Some(held)
        } else {
            None
        }
    }
}

/// What releasing an owner of `h` hands out to be closed: `h` itself where it
/// is valid, nothing where it is the sentinel.
pub open spec fn release_result(h: LibraryHandle) -> Option<LibraryHandle> {
    if h.spec_is_valid() {
        Some(h)
    } else {
        None
    }
}

/// A handle is handed out for closing at most once: after a release has left
/// the sentinel in place, releasing again hands out nothing, whatever was
/// held before and however the library was used in between.
pub proof fn lemma_release_at_most_once(before: LibraryHandle, after: LibraryHandle)
    requires
        after@ == 0,
    ensures
        release_result(before) is Some ==> release_result(before) == Some(before),
        release_result(after) is None,
{
}

} // verus!
