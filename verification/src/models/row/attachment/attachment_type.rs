use vstd::prelude::*;

verus! {

/// Represents a valid *Attachment Type* in Smartsheet.
#[derive(Debug, Clone)]
pub enum AttachmentType {
    BoxCom,
    Dropbox,
    Egnyte,
    Evernote,
    File,
    GoogleDrive,
    Link,
    Onedrive,
}

impl Default for AttachmentType {
    /// A plain file attachment.
    fn default() -> (r: Self)
        ensures
            r is File,
    {
        AttachmentType::File
    }
}

} // verus!
