pub mod criteria;
pub mod filter;
pub mod heading;
pub mod query;
pub mod sheet;
pub mod source;
pub mod user_permissions;
pub mod user_settings;
pub mod workspace;

pub use self::criteria::Criteria;
pub use self::filter::Filter;
pub use self::heading::Heading;
pub use self::query::Query;
pub use self::sheet::{spec_find_row, Sheet};
pub use self::source::Source;
pub use self::user_permissions::UserPermissions;
pub use self::user_settings::UserSettings;
pub use self::workspace::Workspace;
