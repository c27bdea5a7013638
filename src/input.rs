use vstd::prelude::*;

verus! {

/// A control whose press and release the input collaborator simulates.
#[derive(Clone, Copy, Debug, PartialEq, Eq, Structural)]
pub enum Key {
    MouseRight,
}

} // verus!
