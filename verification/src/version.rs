//! Version negotiation for a freshly loaded model library.
//!
//! A compiled model library exports three integer symbols (major, minor,
//! patch). The binding accepts the library only if the major versions match
//! exactly and the library's minor version is at least the binding's own:
//! the interface is forward-compatible on minor and patch versions only.

use crate::decimal::decimal_i32;
use crate::decimal::spec_decimal_int;
use vstd::prelude::*;
use vstd::string::StringExecFns;

verus! {

/// The binding's own interface version, major part.
pub const VERSION_MAJOR: i32 = 2;

/// The binding's own interface version, minor part.
pub const VERSION_MINOR: i32 = 7;

/// The binding's own interface version, patch part.
pub const VERSION_PATCH: i32 = 0;

/// The version this binding itself implements, as a spec value.
pub open spec fn binding_version() -> Version {
    (Version { major: VERSION_MAJOR, minor: VERSION_MINOR, patch: VERSION_PATCH })
}

/// A three-part interface version, as exported by a model library.
#[derive(Clone, Copy, PartialEq, Eq, Structural, Debug)]
pub struct Version {
    pub major: i32,
    pub minor: i32,
    pub patch: i32,
}

impl Version {
    /// The version this binding itself implements.
    pub fn current() -> (v: Version)
        ensures
            v == binding_version(),
    {
        Version { major: VERSION_MAJOR, minor: VERSION_MINOR, patch: VERSION_PATCH }
    }

    /// The dotted decimal notation of a version, `major.minor.patch`.
    pub open spec fn spec_render(self) -> Seq<char> {
        spec_decimal_int(self.major as int) + seq!['.'] + spec_decimal_int(self.minor as int)
            + seq!['.'] + spec_decimal_int(self.patch as int)
    }

    /// Render the version as `major.minor.patch`.
    pub fn render(&self) -> (s: String)
        ensures
            s@ == self.spec_render(),
    {
        let mut s = decimal_i32(self.major);
        s.append(".");
        s.append(decimal_i32(self.minor).as_str());
        s.append(".");
        s.append(decimal_i32(self.patch).as_str());
        proof {
            reveal_strlit(".");
            assert(s@ =~= self.spec_render());
        }
        s
    }

    /// Whether a library exporting version `self` may be used by a binding
    /// of version `binding`: equal major version, and a minor version at
    /// least the binding's. The patch version never matters.
    pub open spec fn spec_compatible_with(self, binding: Version) -> bool {
        self.major == binding.major && binding.minor <= self.minor
    }

    /// Decide compatibility; see [`Version::spec_compatible_with`].
    pub fn compatible_with(&self, binding: &Version) -> (ok: bool)
        ensures
            ok == self.spec_compatible_with(*binding),
    {
        self.major == binding.major && binding.minor <= self.minor
    }
}

} // verus!
