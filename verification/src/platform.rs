//! The operating systems that the library tells apart.

use vstd::prelude::*;

verus! {

/// The family of operating systems that a plan is made for.
#[derive(Clone, Copy, Debug, PartialEq, Eq, Structural)]
pub enum Platform {
    Linux,
    FreeBsd,
    /// A Unix that is neither Linux nor FreeBSD.
    OtherUnix,
    Windows,
}

impl Platform {
    /// Linux or FreeBSD: the platforms on which socket options are set and read.
    pub open spec fn tunable(self) -> bool {
        self is Linux || self is FreeBsd
    }

    /// Whether this is Linux or FreeBSD.
    pub fn is_tunable(self) -> (r: bool)
        ensures
            r == self.tunable(),
            r == (self is Linux || self is FreeBsd),
    {
        matches!(self, Platform::Linux | Platform::FreeBsd)
    }
}

} // verus!
