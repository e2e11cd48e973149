use vstd::prelude::*;

verus! {

/// A Gantt chart heading: its format and its scale.
#[derive(Debug, Clone)]
pub struct Heading {
    pub format: String,
    pub scale: String,
}

} // verus!
