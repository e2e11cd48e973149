use vstd::prelude::*;

verus! {

/// A predefined contact a `CONTACT_LIST` column offers.
#[derive(Debug, Clone)]
pub struct ContactOption {
    pub email: Option<String>,
    pub name: String,
}

} // verus!
