use vstd::prelude::*;

verus! {

/// A cell image object.
#[derive(Debug, Clone)]
pub struct Image {
    /// Image Id.
    pub id: String,
    /// Alternate text for the image.
    pub alt_text: String,
    /// Original height (in pixels) of the uploaded image.
    pub height: u64,
    /// Original width (in pixels) of the uploaded image.
    pub width: u64,
}

} // verus!
