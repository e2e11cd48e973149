use crate::models::params::EnumStr;
use vstd::prelude::*;

verus! {

/// **Symbol Cell** - Represents a *Light Picker* dropdown cell, with its
/// fixed vocabulary of color names.
#[derive(Debug)]
pub enum LightPicker {
    Red,
    Yellow,
    Green,
    Blue,
    Gray,
}

impl EnumStr for LightPicker {
    open spec fn str_spec(&self) -> Seq<char> {
        match self {
            LightPicker::Red => "Red"@,
            LightPicker::Yellow => "Yellow"@,
            LightPicker::Green => "Green"@,
            LightPicker::Blue => "Blue"@,
            LightPicker::Gray => "Gray"@,
        }
    }

    fn as_str(&self) -> (r: &'static str) {
        match self {
            LightPicker::Red => "Red",
            LightPicker::Yellow => "Yellow",
            LightPicker::Green => "Green",
            LightPicker::Blue => "Blue",
            LightPicker::Gray => "Gray",
        }
    }
}

} // verus!
