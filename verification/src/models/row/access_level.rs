use vstd::prelude::*;

verus! {

/// The requesting user's access level on a sheet or row.
#[derive(Debug, Clone)]
pub enum AccessLevel {
    Admin,
    Editor,
    EditorShare,
    Owner,
    Viewer,
}

} // verus!
