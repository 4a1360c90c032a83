use vstd::prelude::*;

verus! {

/// A remote object key as the store hands it out.
pub struct Oid {
    pub value: String,
}

} // verus!
