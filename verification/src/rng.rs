//! The bookkeeping handle for one foreign random-number generator
//! instance.
//!
//! A generator is constructed from a specific loaded library instance and
//! is binary-compatible only with models constructed from that same
//! instance; the handle therefore records which library it came from, via
//! [`LibraryRef`]. A generator is not safe for concurrent use: callers
//! that need entropy must hold it exclusively for the duration of a call,
//! which the `&mut` borrow at the use sites enforces. Destruction of the
//! foreign instance stays with the caller's wrapper, exactly once, after
//! which this handle must be gone too.

use crate::error::BridgeStanError;
use crate::error::ErrorSlot;
use crate::library::LibraryRef;
use vstd::prelude::*;

verus! {

/// A random number generator instance, tied to the library instance it
/// was constructed from. It is only used when constrained parameters are
/// requested together with generated quantities.
pub struct Rng<T: LibraryRef> {
    handle: usize,
    lib: T,
}

impl<T: LibraryRef> Rng<T> {
    /// The foreign instance's address, handed in at construction.
    pub closed spec fn spec_handle(&self) -> usize {
        self.handle
    }

    /// The library access this handle keeps.
    pub closed spec fn spec_lib(&self) -> T {
        self.lib
    }

    /// The identity token of the library this generator came from.
    pub open spec fn spec_lib_id(&self) -> u64 {
        self.spec_lib().lib_view().spec_id()
    }

    /// A live handle holds a nonnull foreign instance.
    pub open spec fn wf(&self) -> bool {
        self.spec_handle() != 0
    }

    /// Interpret the outcome of the foreign generator constructor.
    /// `handle` is the address the constructor returned, zero for null;
    /// `err` is the state of the error channel after the call. A nonnull
    /// handle becomes a live generator tied to `lib`; null means the
    /// construction was rejected, and the received diagnostic is carried
    /// verbatim.
    pub fn new(lib: T, handle: usize, err: ErrorSlot) -> (r: Result<Rng<T>, BridgeStanError>)
        requires
            handle == 0 ==> err.has_message(),
        ensures
            r is Ok <==> handle != 0,
            r matches Ok(rng) ==> rng.wf() && rng.spec_handle() == handle && rng.spec_lib()
                == lib,
            handle == 0 ==> (r matches Err(BridgeStanError::ConstructFailed(m)) && m@
                == err.spec_message()),
    {
        if handle != 0 {
            Ok(Rng { handle, lib })
        } else {
            Err(BridgeStanError::ConstructFailed(err.message()))
        }
    }

    /// The foreign instance's address, for the caller to pass into
    /// foreign calls and, at the end of the handle's life, into the
    /// foreign destructor.
    pub fn handle(&self) -> (r: usize)
        ensures
            r == self.spec_handle(),
    {
        self.handle
    }

    /// The identity token of the library this generator came from.
    pub fn library_id(&self) -> (r: u64)
        ensures
            r == self.spec_lib_id(),
    {
        self.lib.library().id()
    }
}

} // verus!
