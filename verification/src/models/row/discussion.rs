use crate::models::row::attachment::AttachmentMeta;
use crate::models::row::user::User;
use vstd::prelude::*;

verus! {

/// A discussion attached to a row.
#[derive(Debug, Clone)]
pub struct Discussion {
    pub comment_count: u64,
    pub created_by: User,
    pub id: u64,
    pub last_commented_at: String,
    pub last_commented_user: User,
    pub title: String,
    pub comment_attachments: Option<Vec<AttachmentMeta>>,
}

} // verus!
