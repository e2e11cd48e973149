use vstd::prelude::*;

verus! {

/// Represents a valid *Attachment Sub Type* in Smartsheet; only EGNYTE
/// and GOOGLE_DRIVE attachments carry one.
#[derive(Debug, Clone)]
pub enum AttachmentSubType {
    Folder,
    Document,
    Drawing,
    Pdf,
    Presentation,
    Spreadsheet,
}

impl Default for AttachmentSubType {
    /// A plain document.
    fn default() -> (r: Self)
        ensures
            r is Document,
    {
        AttachmentSubType::Document
    }
}

} // verus!
