//! The version that a server reports in a status response.

use vstd::prelude::*;

verus! {

/// Major version of this implementation.
pub const VERSION_MAJOR: u8 = 0;

/// Minor version of this implementation.
pub const VERSION_MINOR: u8 = 1;

/// Patch version of this implementation.
pub const VERSION_PATCH: u8 = 0;

/// A version: major, minor, patch.
#[derive(Clone, Copy, PartialEq, Eq, Debug, Structural)]
pub struct Version {
    maj: u8,
    min: u8,
    patch: u8,
}

impl Version {
    /// The three bytes of this version in wire order: major, minor, patch.
    pub closed spec fn bytes(self) -> Seq<u8> {
        seq![self.maj, self.min, self.patch]
    }

    /// The version of this implementation.
    pub open spec fn current() -> Seq<u8> {
        seq![VERSION_MAJOR, VERSION_MINOR, VERSION_PATCH]
    }

    /// The version of this implementation.
    pub fn get() -> (v: Version)
        ensures
            v.bytes() == Version::current(),
    {
        Version { maj: VERSION_MAJOR, min: VERSION_MINOR, patch: VERSION_PATCH }
    }

    /// A version from its three parts.
    pub fn new(maj: u8, min: u8, patch: u8) -> (v: Version)
        ensures
            v.bytes() == seq![maj, min, patch],
    {
        Version { maj, min, patch }
    }

    /// The three bytes of this version in wire order.
    pub fn as_bytes(&self) -> (b: [u8; 3])
        ensures
            b@ == self.bytes(),
    {
        let b: [u8; 3] = [self.maj, self.min, self.patch];
        assert(b@ =~= self.bytes());
        b
    }
}

} // verus!
