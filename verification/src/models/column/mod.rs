pub mod column;
pub mod contact_option;

pub use self::column::Column;
pub use self::contact_option::ContactOption;
