//! Backend version numbers, packed as `major * 1000000 + minor * 1000 + patch`.
use vstd::prelude::*;

verus! {

#[derive(Clone, Copy, Debug, PartialEq, Eq, Structural, PartialOrd, Ord, Hash)]
pub struct Version(pub u32);

impl Version {
    /// The packed version. The parts read back as given where minor and
    /// patch are below 1000.
    pub fn new(major: u32, minor: u32, patch: u32) -> (r: Self)
        requires
            major * 1000000 + minor * 1000 + patch <= u32::MAX,
        ensures
            r.0 == major * 1000000 + minor * 1000 + patch,
            minor < 1000 && patch < 1000 ==> r.spec_major() == major && r.spec_minor() == minor
                && r.spec_patch() == patch,
    {
        let v = major * 1000000 + minor * 1000 + patch;
        proof {
            if minor < 1000 && patch < 1000 {
            assert((major * 1000000 + minor * 1000 + patch) / 1000000 == major) by (nonlinear_arith)
                requires
                    minor < 1000,
                    patch < 1000,
            ;
            assert(((major * 1000000 + minor * 1000 + patch) / 1000) % 1000 == minor)
                by (nonlinear_arith)
                requires
                    minor < 1000,
                    patch < 1000,
            ;
            assert((major * 1000000 + minor * 1000 + patch) % 1000 == patch) by (nonlinear_arith)
                requires
                    minor < 1000,
                    patch < 1000,
            ;
            }
        }
        Version(v)
    }

    pub open spec fn spec_major(self) -> nat {
        (self.0 / 1000000) as nat
    }

    pub open spec fn spec_minor(self) -> nat {
        ((self.0 / 1000) % 1000) as nat
    }

    pub open spec fn spec_patch(self) -> nat {
        (self.0 % 1000) as nat
    }

    pub fn major(&self) -> (r: u32)
        ensures
            r == self.spec_major(),
    {
        self.0 / 1000000
    }

    pub fn minor(&self) -> (r: u32)
        ensures
            r == self.spec_minor(),
    {
        (self.0 / 1000) % 1000
    }

    pub fn patch(&self) -> (r: u32)
        ensures
            r == self.spec_patch(),
    {
        self.0 % 1000
    }
}

impl From<u32> for Version {
    fn from(v: u32) -> (r: Self) {
        Version(v)
    }
}

impl vstd::std_specs::convert::FromSpecImpl<u32> for Version {
    open spec fn obeys_from_spec() -> bool {
        true
    }

    open spec fn from_spec(v: u32) -> Self {
        Version(v)
    }
}

impl From<Version> for u32 {
    fn from(v: Version) -> (r: Self) {
        v.0
    }
}

impl vstd::std_specs::convert::FromSpecImpl<Version> for u32 {
    open spec fn obeys_from_spec() -> bool {
        true
    }

    open spec fn from_spec(v: Version) -> Self {
        v.0
    }
}

} // verus!
