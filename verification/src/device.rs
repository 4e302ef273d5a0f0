//! Whether a slot is logged in by its configuration.
use vstd::prelude::*;

verus! {

/// Whether the basic authentication `auth` (a user name and an optional
/// password) carries a non-empty password.
pub open spec fn has_password(auth: Option<(String, Option<String>)>) -> bool {
    match auth {
        Some((_, Some(p))) => p@.len() > 0,
        _ => false,
    }
}

/// Whether a slot whose NetHSM instances have the basic authentications
/// `auths`, in order, is connected: the user is connected where the first
/// instance's basic authentication holds a user name and a non-empty
/// password, and has to log in otherwise.
pub fn is_connected(auths: &Vec<Option<(String, Option<String>)>>) -> (r: bool)
    ensures
        r == (auths@.len() > 0 && has_password(auths@[0])),
{
    if auths.len() == 0 {
        return false;
    }
    match &auths[0] {
        Some((_, Some(password))) => !password.as_str().is_empty(),
        _ => false,
    }
}

} // verus!
