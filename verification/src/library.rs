//! The bookkeeping handle for one loaded model library.
//!
//! The caller loads the shared library, reads its three exported version
//! symbols, and derives a process-unique identity token for this load.
//! [`StanLibrary::new`] is the version gate: it accepts the load only if
//! the exported version is compatible with the binding's own, and
//! otherwise rejects it with both version strings. The identity token is
//! what ties model and generator handles to the library instance they
//! were constructed from; it is used only for equality checks.
//!
//! The loaded OS resource itself, and the decision whether unloading it
//! is safe on the running platform, stay with the caller: only the
//! caller's wrapper may free or deliberately leak it, exactly once.

use crate::error::BridgeStanError;
use crate::version::binding_version;
use crate::version::Version;
use std::sync::Arc;
use vstd::prelude::*;

verus! {

/// A loaded model library: its identity token and its exported version.
#[derive(Debug)]
pub struct StanLibrary {
    id: u64,
    version: Version,
}

impl StanLibrary {
    /// The process-unique identity token of this load.
    pub closed spec fn spec_id(&self) -> u64 {
        self.id
    }

    /// The version the library exports.
    pub closed spec fn spec_version(&self) -> Version {
        self.version
    }

    /// The version gate. Accept a freshly loaded library iff its exported
    /// version is compatible with the binding's own: equal major version,
    /// and a minor version at least the binding's. On rejection the error
    /// carries the loaded version's text and the binding's.
    pub fn new(id: u64, loaded: Version) -> (r: Result<StanLibrary, BridgeStanError>)
        ensures
            r is Ok <==> loaded.spec_compatible_with(binding_version()),
            r matches Ok(l) ==> l.spec_id() == id && l.spec_version() == loaded,
            r matches Err(e) ==> (e matches BridgeStanError::BadLibraryVersion(got, want)
                && got@ == loaded.spec_render() && want@ == binding_version().spec_render()),
    {
        let own = Version::current();
        if loaded.compatible_with(&own) {
            Ok(StanLibrary { id, version: loaded })
        } else {
            Err(BridgeStanError::BadLibraryVersion(loaded.render(), own.render()))
        }
    }

    /// The identity token of this load.
    pub fn id(&self) -> (r: u64)
        ensures
            r == self.spec_id(),
    {
        self.id
    }

    /// The version the library exports.
    pub fn version(&self) -> (v: Version)
        ensures
            v == self.spec_version(),
    {
        self.version
    }
}

/// Some form of access to a [`StanLibrary`]: by value, by reference, or by
/// shared ownership. Model and generator handles are generic over this, so
/// that a handle can either borrow its library or share ownership of it —
/// either way the handle cannot outlive the library.
pub trait LibraryRef: Sized {
    /// The library this value gives access to.
    spec fn lib_view(&self) -> StanLibrary;

    /// Borrow the library.
    fn library(&self) -> (r: &StanLibrary)
        ensures
            *r == self.lib_view(),
    ;
}

impl LibraryRef for StanLibrary {
    open spec fn lib_view(&self) -> StanLibrary {
        *self
    }

    fn library(&self) -> (r: &StanLibrary) {
        self
    }
}

impl<'a> LibraryRef for &'a StanLibrary {
    open spec fn lib_view(&self) -> StanLibrary {
        **self
    }

    fn library(&self) -> (r: &StanLibrary) {
        *self
    }
}

impl LibraryRef for Arc<StanLibrary> {
    open spec fn lib_view(&self) -> StanLibrary {
        **self
    }

    fn library(&self) -> (r: &StanLibrary) {
        &**self
    }
}

} // verus!
