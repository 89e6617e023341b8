//! The user's home directory.
use vstd::prelude::*;

verus! {

/// The home directory: `$HOME`, else `%USERPROFILE%` (the values of the two
/// variables, where they are set and valid UTF-8).
pub fn homedir(home_var: Option<String>, userprofile_var: Option<String>) -> (r: Option<String>)
    ensures
        r == (if home_var is Some {
            home_var
        } else {
            userprofile_var
        }),
{
    match home_var {
        Some(h) => Some(h),
        None => userprofile_var,
    }
}

} // verus!
