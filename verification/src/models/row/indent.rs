use vstd::prelude::*;

verus! {

/// Marks `indent` / `outdent` as enabled. On the wire the value is the
/// bare number `1`; no other value exists.
#[derive(Debug, Copy, Clone)]
pub enum IndentEnabled {
    TRUE,
}

} // verus!
