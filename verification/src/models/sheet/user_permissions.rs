use vstd::prelude::*;

verus! {

/// The requesting user's permissions on the sheet.
#[derive(Debug, Clone)]
pub struct UserPermissions {
    pub summary_permissions: String,
}

impl Default for UserPermissions {
    /// No summary permissions named.
    fn default() -> (r: Self)
        ensures
            r.summary_permissions@ == Seq::<char>::empty(),
    {
        Self { summary_permissions: String::new() }
    }
}

} // verus!
