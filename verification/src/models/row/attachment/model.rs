use crate::models::row::attachment::meta::AttachmentMeta;
use vstd::prelude::*;

verus! {

/// An attachment on a row, comment, or sheet.
#[derive(Debug, Clone)]
pub struct Attachment {
    /// Additional info on the attachment, such as its name and type.
    pub meta: AttachmentMeta,
    /// Attachment temporary URL (files only); a permanent URL for other
    /// attachment types such as LINK.
    pub url: String,
    /// Attachment temporary URL time to live (files only).
    pub url_expires_in_millis: u64,
}

impl Attachment {
    /// Returns the download URL for the Attachment.
    ///
    /// For `FILE` type attachments this is a temporary pre-signed URL that
    /// expires in `url_expires_in_millis`; for other attachment types such
    /// as `LINK` it is a permanent download URL.
    pub fn download_url(&self) -> (r: &str)
        ensures
            r@ == self.url@,
    {
        self.url.as_str()
    }
}

} // verus!
