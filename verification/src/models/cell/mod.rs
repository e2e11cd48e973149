pub mod cell;
pub mod cell_builder;
pub mod contact;
pub mod decision;
pub mod hyperlink;
pub mod image;
pub mod light_picker;
pub mod object_type;
pub mod value;

pub use self::cell::{cell_write_obj, spec_contact_of, spec_object_values, Cell};
pub use self::cell_builder::{
    lemma_contact_obj_parses, spec_blank_rest, spec_contact_obj, spec_multi_contact_obj,
    spec_multi_picklist_obj, CellBuilder,
};
pub use self::contact::{
    spec_addrs_str, spec_name_addr, Contact, ContactEmailAddrs, ContactOwned,
};
pub use self::decision::Decision;
pub use self::hyperlink::{hyperlink_write_obj, Hyperlink};
pub use self::image::Image;
pub use self::light_picker::LightPicker;
pub use self::object_type::ObjectType;
pub use self::value::{cell_value_eq, lemma_value_round_trip, spec_decoded, spec_encoded, CellValue};
