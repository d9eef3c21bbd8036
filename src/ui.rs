//! How well a plugin UI is supported by a host.
use vstd::prelude::*;

verus! {

/// The quality of support for a UI; 0 means unsupported, higher is better.
#[derive(Clone, Copy, Debug, PartialEq, Eq, Structural, PartialOrd, Ord)]
pub struct UISupportQuality(pub u32);

/// Rates how well a host's container type supports a UI type.
pub trait UISupport {
    /// The quality with which a UI of type `ui` can be shown in `container`.
    fn supported(container: &str, ui: &str) -> UISupportQuality;
}

impl UISupportQuality {
    /// The quality reported for a support query. When the caller asked for the
    /// UI type and none was found, the UI counts as unsupported.
    pub fn of_query(reported: u32, ui_type_requested: bool, ui_type_found: bool) -> (r: UISupportQuality)
        ensures
            ui_type_requested && !ui_type_found ==> r.0 == 0,
            !(ui_type_requested && !ui_type_found) ==> r.0 == reported,
    {
        if ui_type_requested && !ui_type_found {
            UISupportQuality(0)
        } else {
            UISupportQuality(reported)
        }
    }

    /// Whether the UI can be shown at all.
    pub fn is_supported(&self) -> (r: bool)
        ensures
            r == (self.0 > 0),
    {
        self.0 > 0
    }
}

} // verus!
