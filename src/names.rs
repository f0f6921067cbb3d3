use vstd::prelude::*;
use vulkanalia::vk;

verus! {

/// The name of the layer that bundles the standard Khronos validations.
pub open spec fn validation_layer_spec() -> Seq<char> {
    "VK_LAYER_KHRONOS_validation"@
}

/// Name of the extension for the second version of the physical device queries.
pub open spec fn properties2_extension_spec() -> Seq<char> {
    "VK_KHR_get_physical_device_properties2"@
}

/// Name of the extension that lets the loader enumerate portability drivers.
pub open spec fn portability_extension_spec() -> Seq<char> {
    "VK_KHR_portability_enumeration"@
}

/// Bits of the instance creation flag that enumerates portability drivers.
pub open spec fn portability_flag_spec() -> u32 {
    1
}

/// The names held by a list of strings.
pub open spec fn names_of(v: Seq<String>) -> Seq<Seq<char>> {
    v.map_values(|s: String| s@)
}

/// The validation layer's name.
pub fn validation_layer() -> (r: String)
    ensures
        r@ == validation_layer_spec(),
{
    "VK_LAYER_KHRONOS_validation".to_owned()
}

/// Relies on vulkanalia's `vk::KHR_GET_PHYSICAL_DEVICE_PROPERTIES2_EXTENSION`:
/// its name, read back with `StringArray::to_string_lossy`.
#[verifier::external_body]
pub(crate) fn properties2_extension() -> (r: String)
    ensures
        r@ == properties2_extension_spec(),
{
    vk::KHR_GET_PHYSICAL_DEVICE_PROPERTIES2_EXTENSION.name.to_string_lossy().into_owned()
}

/// Relies on vulkanalia's `vk::KHR_PORTABILITY_ENUMERATION_EXTENSION`: its
/// name, read back with `StringArray::to_string_lossy`.
#[verifier::external_body]
pub(crate) fn portability_extension() -> (r: String)
    ensures
        r@ == portability_extension_spec(),
{
    vk::KHR_PORTABILITY_ENUMERATION_EXTENSION.name.to_string_lossy().into_owned()
}

/// Relies on vulkanalia's `vk::InstanceCreateFlags::ENUMERATE_PORTABILITY_KHR`:
/// its bits.
#[verifier::external_body]
pub(crate) fn portability_flag() -> (r: u32)
    ensures
        r == portability_flag_spec(),
{
    vk::InstanceCreateFlags::ENUMERATE_PORTABILITY_KHR.bits()
}

/// Relies on vulkanalia's `vk::make_version`: the version packed into one word,
/// major in the top bits, minor from bit 12 and patch in the low bits.
#[verifier::external_body]
pub(crate) fn make_version(major: u32, minor: u32, patch: u32) -> (r: u32)
    ensures
        r == ((major << 22u32) | (minor << 12u32) | patch),
{
    vk::make_version(major, minor, patch)
}

} // verus!
