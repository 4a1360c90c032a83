use vstd::prelude::*;

verus! {

/// The signed-in user as the identity provider reports it.
pub struct User {
    pub name: String,
    pub picture: String,
    pub sub: String,
}

} // verus!
