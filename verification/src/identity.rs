//! The immutable addressing and naming data of the camera component,
//! assigned once at startup and used to stamp every outbound frame.

use vstd::prelude::*;

verus! {

/// Identity of this component on the bus: its addressing pair and the
/// vendor/model names reported in capability frames. Set once at
/// construction and never mutated.
pub struct ComponentIdentity {
    pub system_id: u8,
    pub component_id: u8,
    pub vendor_name: String,
    pub model_name: String,
}

impl ComponentIdentity {
    /// Builds an identity from its four fields.
    pub fn new(system_id: u8, component_id: u8, vendor_name: String, model_name: String) -> (r:
        ComponentIdentity)
        ensures
            r.system_id == system_id,
            r.component_id == component_id,
            r.vendor_name@ == vendor_name@,
            r.model_name@ == model_name@,
    {
        ComponentIdentity { system_id, component_id, vendor_name, model_name }
    }
}

} // verus!
