use vstd::prelude::*;

verus! {

/// A variable (or covariable) token. It is neither `Copy` nor `Clone`, so
/// each token is used at most once.
pub struct Var {}

impl Var {
    /// Create a fresh variable token.
    pub fn new() -> (r: Var)
        ensures
            r == (Var {}),
    {
        Var {}
    }
}

impl Default for Var {
    /// A fresh variable token.
    fn default() -> (r: Var)
        ensures
            r == (Var {}),
    {
        Var::new()
    }
}

} // verus!
