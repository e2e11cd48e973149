use vstd::prelude::*;

verus! {

/// The requesting user's settings on the sheet.
#[derive(Debug, Clone)]
pub struct UserSettings {
    pub critical_path_enabled: bool,
    pub display_summary_tasks: bool,
}

impl Default for UserSettings {
    /// Both settings off.
    fn default() -> (r: Self)
        ensures
            !r.critical_path_enabled,
            !r.display_summary_tasks,
    {
        Self { critical_path_enabled: false, display_summary_tasks: false }
    }
}

} // verus!
