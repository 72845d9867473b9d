use vstd::prelude::*;

verus! {

/// Errors by which the program refuses a request.
#[derive(Clone, Copy, Debug, PartialEq, Eq, Structural)]
pub enum StackError {
    /// The user already has as many NFTs stacked as the configuration allows.
    MaxStackReach,
}

} // verus!
