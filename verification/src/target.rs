//! Build targets: a directory with a configuration and a role.

use vstd::prelude::*;

use crate::config::Config;

verus! {

/// The role a configured directory plays in the build.
#[derive(Debug, Clone, Copy, PartialEq, Eq, Structural)]
pub enum TargetKind {
    Root,
    Executable,
    Installer,
}

/// A configured directory taking part in the build.
#[derive(Debug, Clone)]
pub struct Target {
    pub path: String,
    pub kind: TargetKind,
    pub config: Config,
}

/// The display name of a target kind.
pub open spec fn spec_kind_name(k: TargetKind) -> Seq<char> {
    match k {
        TargetKind::Root => "root"@,
        TargetKind::Executable => "executable"@,
        TargetKind::Installer => "installer"@,
    }
}

impl TargetKind {
    /// The display name of the kind.
    pub fn name(&self) -> (r: &'static str)
        ensures
            r@ == spec_kind_name(*self),
    {
        match self {
            TargetKind::Root => "root",
            TargetKind::Executable => "executable",
            TargetKind::Installer => "installer",
        }
    }
}

} // verus!
