//! The operating system and architecture that `csm` was built for.
use vstd::prelude::*;

verus! {

#[derive(Clone, Copy, Debug, PartialEq, Eq, Structural)]
pub enum TargetOs {
    Linux,
    Windows,
    Other,
}

#[derive(Clone, Copy, Debug, PartialEq, Eq, Structural)]
pub enum TargetArch {
    X86_64,
    Aarch64,
    Other,
}

#[derive(Clone, Copy, Debug, PartialEq, Eq, Structural)]
pub struct Platform {
    pub os: TargetOs,
    pub arch: TargetArch,
}

impl Platform {
    pub fn is_windows(&self) -> (r: bool)
        ensures
            r == (self.os == TargetOs::Windows),
    {
        match self.os {
            TargetOs::Windows => true,
            _ => false,
        }
    }
}

} // verus!
