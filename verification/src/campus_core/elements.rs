//! The portal page description (`elements.toml`).
use vstd::prelude::*;

verus! {

/// A network service offered on the portal: element id and display name.
pub struct ServiceMapping {
    pub id: String,
    pub name: String,
}

/// Element ids on the login page.
pub struct PageElements {
    pub login_button: String,
    pub username_tip: String,
    pub username_input: String,
    pub password_tip: String,
    pub password_input: String,
    pub service_tip: String,
}

/// Page elements and the offered services.
pub struct Elements {
    pub page: PageElements,
    pub service: Vec<ServiceMapping>,
}

} // verus!
