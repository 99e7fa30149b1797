//! Resolution of a (build, host, target) architecture triple into a
//! canonical identity name and a classification of the bootstrap shape.
//!
//! The identity is the sole key used for on-disk placement: every other
//! component derives paths from it and never recomputes the naming rule.

use vstd::prelude::*;
use vstd::string::StringExecFns;

verus! {

/// How the toolchain build is bootstrapped, derived from which of the three
/// triple components coincide.
#[derive(Clone, Copy, Debug, PartialEq, Eq, Structural)]
pub enum BootstrapShape {
    /// target == build == host: an ordinary native build.
    Native,
    /// exactly one other component differs: target == build with a foreign
    /// host, or target == host with a foreign build architecture.
    CrossOnHost,
    /// target differs from build, and build == host: a classic cross build.
    CrossFromBuild,
    /// all three components differ: the fully split case.
    CrossOnHostFromBuild,
}

/// The classification table, row for row:
/// target == build and target == host gives `Native`;
/// target == build and target != host gives `CrossOnHost`;
/// target != build and target == host gives `CrossOnHost`;
/// target != build, target != host and build == host gives `CrossFromBuild`;
/// anything else gives `CrossOnHostFromBuild`.
pub open spec fn shape_of(build: Seq<char>, host: Seq<char>, target: Seq<char>) -> BootstrapShape {
    if target == build {
        if target == host {
            BootstrapShape::Native
        } else {
            BootstrapShape::CrossOnHost
        }
    } else if target == host {
        BootstrapShape::CrossOnHost
    } else if build == host {
        BootstrapShape::CrossFromBuild
    } else {
        BootstrapShape::CrossOnHostFromBuild
    }
}

/// The canonical identity name for a triple: `target` alone for a native
/// build; `{target}_on_{differentiator}` where exactly one other component
/// matters; `{target}_on_{host}_from_{build}` in the fully split case.
pub open spec fn identity_of(build: Seq<char>, host: Seq<char>, target: Seq<char>) -> Seq<char> {
    if target == build {
        if target == host {
            target
        } else {
            target + "_on_"@ + host
        }
    } else if target == host {
        target + "_on_"@ + build
    } else if build == host {
        target + "_on_"@ + build
    } else {
        target + "_on_"@ + host + "_from_"@ + build
    }
}

/// A (build, host, target) architecture triple: where the toolchain is
/// built, where it will run, and what it produces code for. Each component
/// is a non-empty architecture name, accepted literally.
pub struct Triple {
    pub build: String,
    pub host: String,
    pub target: String,
}

impl Triple {
    /// Every component is non-empty; no further validation is mandated.
    pub open spec fn wf(&self) -> bool {
        self.build@.len() > 0 && self.host@.len() > 0 && self.target@.len() > 0
    }

    pub fn new(build: String, host: String, target: String) -> (t: Triple)
        ensures
            t.build == build,
            t.host == host,
            t.target == target,
    {
        Triple { build, host, target }
    }

    /// Maps the triple to its canonical identity name and bootstrap shape.
    /// Pure, total and deterministic: the result is a function of the three
    /// component strings alone.
    pub fn resolve(&self) -> (r: (String, BootstrapShape))
        ensures
            r.0@ == identity_of(self.build@, self.host@, self.target@),
            r.1 == shape_of(self.build@, self.host@, self.target@),
    {
        let mut name = self.target.clone();
        let shape: BootstrapShape;
        if self.target == self.build {
            if self.target == self.host {
                shape = BootstrapShape::Native;
            } else {
                shape = BootstrapShape::CrossOnHost;
                name.append("_on_");
                name.append(self.host.as_str());
            }
        } else if self.target == self.host {
            shape = BootstrapShape::CrossOnHost;
            name.append("_on_");
            name.append(self.build.as_str());
        } else if self.build == self.host {
            shape = BootstrapShape::CrossFromBuild;
            name.append("_on_");
            name.append(self.build.as_str());
        } else {
            shape = BootstrapShape::CrossOnHostFromBuild;
            name.append("_on_");
            name.append(self.host.as_str());
            name.append("_from_");
            name.append(self.build.as_str());
        }
        (name, shape)
    }
}

} // verus!
