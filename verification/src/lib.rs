//! Managing Robotmk environments: configuration, the environment variables
//! handed to `micromamba`, how `micromamba` is found or fetched, and the shell
//! integration of `csm`.
pub mod csmrc;
pub mod env;
pub mod micromamba;
pub mod platform;
pub mod shell;
pub mod text;
pub mod util;

use vstd::prelude::*;

verus! {

/// Whether a command finished successfully or not.
#[derive(Clone, Copy, Debug, PartialEq, Eq, Structural)]
pub enum ExitCode {
    Success,
    Failure,
}

} // verus!
