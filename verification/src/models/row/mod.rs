pub mod access_level;
pub mod attachment;
pub mod discussion;
pub mod indent;
pub mod row;
pub mod row_result;
pub mod user;

pub use self::access_level::AccessLevel;
pub use self::attachment::{Attachment, AttachmentMeta, AttachmentSubType, AttachmentType, ParentType};
pub use self::discussion::Discussion;
pub use self::indent::IndentEnabled;
pub use self::row::{row_write_obj, spec_find_cell, Row};
pub use self::row_result::{Message, RowResult};
pub use self::user::User;
