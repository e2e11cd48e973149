use vstd::prelude::*;

verus! {

/// The workspace a sheet belongs to.
#[derive(Debug, Clone)]
pub struct Workspace {
    pub id: u64,
    pub name: String,
}

} // verus!
