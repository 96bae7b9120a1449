//! Kubernetes control-plane versions offered by the resolver.

use vstd::prelude::*;

verus! {

/// Supported control-plane versions, newest first; the newest is the default.
#[derive(Clone, Copy, Debug, PartialEq, Eq, Structural)]
pub enum ClusterVersion {
    K132,
    K131,
    K130,
}

/// How a version label reads: an unknown label reads as the newest
/// supported version.
pub open spec fn version_from_str_spec(s: Seq<char>) -> ClusterVersion {
    if s == "1.30"@ {
        ClusterVersion::K130
    } else if s == "1.31"@ {
        ClusterVersion::K131
    } else {
        ClusterVersion::K132
    }
}

impl ClusterVersion {
    /// The selectable versions in prompt order (newest first).
    pub open spec fn versions_spec() -> Seq<ClusterVersion> {
        seq![ClusterVersion::K132, ClusterVersion::K131, ClusterVersion::K130]
    }

    pub fn versions() -> (r: Vec<ClusterVersion>)
        ensures
            r@ == Self::versions_spec(),
    {
        let mut r: Vec<ClusterVersion> = Vec::new();
        r.push(ClusterVersion::K132);
        r.push(ClusterVersion::K131);
        r.push(ClusterVersion::K130);
        proof {
            assert(r@ =~= Self::versions_spec());
        }
        r
    }

    /// The version at `idx` in the prompt order.
    pub fn from_idx(idx: usize) -> (r: ClusterVersion)
        requires
            idx < Self::versions_spec().len(),
        ensures
            r == Self::versions_spec()[idx as int],
    {
        if idx == 0 {
            ClusterVersion::K132
        } else if idx == 1 {
            ClusterVersion::K131
        } else {
            ClusterVersion::K130
        }
    }
}

impl<'a> core::convert::From<&'a str> for ClusterVersion {
    /// Parse a version label; an unknown label reads as the newest
    /// supported version.
    fn from(s: &'a str) -> (r: ClusterVersion) {
        if crate::str_eq(s, "1.30") {
            ClusterVersion::K130
        } else if crate::str_eq(s, "1.31") {
            ClusterVersion::K131
        } else {
            ClusterVersion::K132
        }
    }
}

impl<'a> vstd::std_specs::convert::FromSpecImpl<&'a str> for ClusterVersion {
    open spec fn obeys_from_spec() -> bool {
        true
    }

    open spec fn from_spec(s: &'a str) -> ClusterVersion {
        version_from_str_spec(s@)
    }
}

} // verus!
