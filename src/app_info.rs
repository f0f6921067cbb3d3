use vstd::prelude::*;
use crate::names::make_version;

verus! {

/// What the application tells the driver about itself when creating the instance.
#[derive(Clone, Debug)]
pub struct ApplicationInfo {
    pub application_name: String,
    pub application_version: u32,
    pub engine_name: String,
    pub engine_version: u32,
    /// The API version asked for, packed as the driver expects.
    pub api_version: u32,
}

/// The version `0.1.0`, packed: minor 1 sits at bit 12.
pub open spec fn version_0_1_0() -> u32 {
    4096
}

/// The application's description: "Vulkan Tutorial" on "No Engine", both at
/// version 0.1.0, asking for API version 0.1.0 (a value kept as it has always
/// been sent; a real API version would be 1.0 or later).
pub fn application_info() -> (r: ApplicationInfo)
    ensures
        r.application_name@ == "Vulkan Tutorial"@,
        r.engine_name@ == "No Engine"@,
        r.application_version == version_0_1_0(),
        r.engine_version == version_0_1_0(),
        r.api_version == version_0_1_0(),
{
    let v = make_version(0, 1, 0);
    assert(((0u32 << 22u32) | (1u32 << 12u32) | 0u32) == 4096u32) by (bit_vector);
    ApplicationInfo {
        application_name: "Vulkan Tutorial".to_owned(),
        application_version: v,
        engine_name: "No Engine".to_owned(),
        engine_version: v,
        api_version: v,
    }
}

} // verus!
