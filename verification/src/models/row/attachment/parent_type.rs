use vstd::prelude::*;

verus! {

/// The type of object an attachment belongs to.
#[derive(Debug, Clone)]
pub enum ParentType {
    Comment,
    Row,
    Sheet,
}

impl Default for ParentType {
    /// Attachments hang off a row unless said otherwise.
    fn default() -> (r: Self)
        ensures
            r is Row,
    {
        ParentType::Row
    }
}

} // verus!
