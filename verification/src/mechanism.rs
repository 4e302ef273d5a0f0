//! Mechanisms that the token offers as objects.
use vstd::prelude::*;

verus! {

/// A mechanism of the token, named by its `CK_MECHANISM_TYPE`.
#[derive(Clone, Copy, Debug, PartialEq, Eq, Structural)]
pub struct Mechanism {
    pub ck_type: u64,
}

} // verus!
