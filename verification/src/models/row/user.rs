use vstd::prelude::*;

verus! {

/// The name and email of a user referenced by a row or attachment.
#[derive(Debug, Clone)]
pub struct User {
    pub email: String,
    pub name: Option<String>,
}

} // verus!
