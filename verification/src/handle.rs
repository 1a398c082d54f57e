//! The release discipline of operating-system handles.

use vstd::prelude::*;

verus! {

/// The sentinel that the operating system returns in place of a handle.
pub const INVALID_HANDLE_VALUE: isize = -1;

/// Whether a raw handle value is the invalid-handle sentinel.
pub open spec fn is_invalid_handle(value: isize) -> bool {
    value == INVALID_HANDLE_VALUE
}

/// Tells whether a raw handle value is the invalid-handle sentinel.
pub fn handle_is_invalid(value: isize) -> (invalid: bool)
    ensures
        invalid == is_invalid_handle(value),
        invalid == (value == -1),
{
    value == INVALID_HANDLE_VALUE
}

/// Owns one handle and decides when it is to be closed: once if it is valid,
/// never if it is not.
#[derive(Debug)]
pub struct HandleWrapper {
    value: isize,
    released: bool,
}

impl HandleWrapper {
    /// The raw value of the wrapped handle.
    pub closed spec fn value(&self) -> isize {
        self.value
    }

    /// Whether the release of the handle has been decided already.
    pub closed spec fn released(&self) -> bool {
        self.released
    }

    /// Takes ownership of a handle.
    pub fn new(handle: isize) -> (wrapper: Self)
        ensures
            wrapper.value() == handle,
            !wrapper.released(),
    {
        HandleWrapper { value: handle, released: false }
    }

    /// The raw value of the wrapped handle.
    pub fn get(&self) -> (handle: isize)
        ensures
            handle == self.value(),
    {
        self.value
    }

    /// Whether the wrapped handle is the invalid-handle sentinel.
    pub fn is_invalid(&self) -> (invalid: bool)
        ensures
            invalid == (self.value() == INVALID_HANDLE_VALUE),
    {
        handle_is_invalid(self.value)
    }

    /// Gives up the handle. The first call on a valid handle returns the value
    /// to close; every other call returns nothing.
    pub fn release(&mut self) -> (to_close: Option<isize>)
        ensures
            final(self).value() == old(self).value(),
            final(self).released(),
            to_close == release_due(old(self).value(), old(self).released()),
    {
        let due: bool = !self.released && !handle_is_invalid(self.value);
        self.released = true;
        if due {
            Some(self.value)
        } else {
            None
        }
    }
}

/// Whatever the handle, at most the first of two releases closes it, and an
/// invalid handle is never closed.
pub proof fn lemma_release_at_most_once(value: isize, released: bool)
    ensures
        is_invalid_handle(value) ==> release_due(value, released) == None::<isize>,
        release_due(value, true) == None::<isize>,
        !is_invalid_handle(value) ==> release_due(value, false) == Some(value),
{
}

/// The value that a release hands out for closing, given the handle's raw
/// value and whether it was released before.
pub open spec fn release_due(value: isize, released: bool) -> Option<isize> {
    if released || is_invalid_handle(value) {
        None
    } else {
        Some(value)
    }
}

} // verus!
