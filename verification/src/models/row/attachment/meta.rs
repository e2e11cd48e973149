use crate::models::row::attachment::attachment_sub_type::AttachmentSubType;
use crate::models::row::attachment::attachment_type::AttachmentType;
use crate::models::row::attachment::parent_type::ParentType;
use crate::models::row::user::User;
use vstd::prelude::*;

verus! {

/// Meta details on an attachment. Attachments can exist on a comment
/// (that is, within a discussion), on a row, or on a sheet.
#[derive(Debug, Clone)]
pub struct AttachmentMeta {
    /// Attachment Id.
    pub id: u64,
    /// Attachment name.
    pub name: String,
    /// Attachment type.
    pub attachment_type: AttachmentType,
    /// A timestamp of when the attachment was originally added.
    pub created_at: String,
    /// The name and email of the creator of this attachment.
    pub created_by: User,
    /// The Id of the parent.
    pub parent_id: Option<u64>,
    /// The type of object the attachment belongs to.
    pub parent_type: Option<ParentType>,
    /// Attachment sub type, for EGNYTE and GOOGLE_DRIVE attachments.
    pub attachment_sub_type: Option<AttachmentSubType>,
    /// Attachment MIME type, for FILE attachments.
    pub mime_type: Option<String>,
    /// The size of the file, for FILE attachments.
    pub size_in_kb: Option<u64>,
}

} // verus!
