//! Lifecycle of a loaded native module handle.
//!
//! The handle itself is an opaque nonzero address chosen by the native
//! loader; the unverified driver performs the load, the entry-point lookups
//! and the final free, and hands the raw results to this module. What is
//! verified here is the bookkeeping the boundary depends on: a failed load
//! is surfaced with its operating-system code, a failed lookup is surfaced
//! with its symbol name, and the handle is marked for release exactly once.

use vstd::prelude::*;

use crate::errors::{FunctionGetError, LoadError};

verus! {

/// Owner of one loaded native module reference.
///
/// `raw` is the address the native loader returned, or zero once the handle
/// has been released (or if it never referred to a loaded module). The
/// native free must be performed exactly when [`LibraryHandle::release`]
/// returns true, which it does at most once per loaded handle.
#[derive(Debug)]
pub struct LibraryHandle {
    raw: usize,
}

impl LibraryHandle {
    /// The raw module address this handle currently owns; zero when the
    /// handle is released or empty.
    pub closed spec fn spec_raw(&self) -> usize {
        self.raw
    }

    /// Wraps a raw module address reported by the native loader.
    pub fn new(handle: usize) -> (r: Self)
        ensures
            r.spec_raw() == handle,
    {
        Self { raw: handle }
    }

    /// Judges the outcome of a native load: a nonzero address becomes an
    /// owned handle, a zero address becomes a [`LoadError`] that keeps the
    /// path and the operating-system code for diagnostics.
    pub fn from_load_result(path: &str, handle: usize, os_code: i32) -> (r: Result<Self, LoadError>)
        ensures
            handle != 0 ==> (r matches Ok(h) && h.spec_raw() == handle),
            handle == 0 ==> (r matches Err(e) && e.path@ == path@ && e.os_code == os_code),
    {
        if handle != 0 {
            Ok(Self::new(handle))
        } else {
            Err(LoadError { path: path.to_owned(), os_code })
        }
    }

    /// Judges the outcome of one entry-point lookup, preferring the ordinal
    /// as the lookup key; `name` is kept only for diagnostics. A nonzero
    /// address is a resolved entry point; a zero address becomes a
    /// [`FunctionGetError`] naming the symbol. Never panics on a missing
    /// symbol.
    pub fn get_func_named_ordinal(
        &self,
        name: &str,
        ordinal: u16,
        addr: usize,
        os_code: i32,
    ) -> (r: Result<usize, FunctionGetError>)
        ensures
            addr != 0 ==> (r matches Ok(a) && a == addr),
            addr == 0 ==> (r matches Err(e) && e.name@ == name@ && e.os_code == os_code),
    {
        let _ = ordinal;
        if addr != 0 {
            Ok(addr)
        } else {
            Err(FunctionGetError { name: name.to_owned(), os_code })
        }
    }

    /// Marks the handle released and says whether the native free must be
    /// performed now. The relation [`release_transition`] captures the whole
    /// effect: the free is owed exactly when the handle still held a loaded
    /// module, and afterwards the handle holds nothing.
    pub fn release(&mut self) -> (do_free: bool)
        ensures
            release_transition(*old(self), *final(self), do_free),
    {
        let was_loaded = self.raw != 0;
        self.raw = 0;
        was_loaded
    }
}

/// The effect of one [`LibraryHandle::release`] call: `do_free` is true
/// exactly when `pre` still owned a loaded module, and `post` owns nothing.
pub open spec fn release_transition(pre: LibraryHandle, post: LibraryHandle, do_free: bool) -> bool {
    &&& do_free == (pre.spec_raw() != 0)
    &&& post.spec_raw() == 0
}

/// A handle is released exactly once: after any release, every further
/// release is a safe no-op that performs no native free.
pub proof fn lemma_release_exactly_once(
    h0: LibraryHandle,
    h1: LibraryHandle,
    f1: bool,
    h2: LibraryHandle,
    f2: bool,
)
    requires
        release_transition(h0, h1, f1),
        release_transition(h1, h2, f2),
    ensures
        f1 == (h0.spec_raw() != 0),
        !f2,
{
}

} // verus!
