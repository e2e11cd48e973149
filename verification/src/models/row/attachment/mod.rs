pub mod attachment_sub_type;
pub mod attachment_type;
pub mod meta;
pub mod model;
pub mod parent_type;

pub use self::attachment_sub_type::AttachmentSubType;
pub use self::attachment_type::AttachmentType;
pub use self::meta::AttachmentMeta;
pub use self::model::Attachment;
pub use self::parent_type::ParentType;
