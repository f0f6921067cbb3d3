//! Bootstrap of a Vulkan instance: negotiation of the layers, extensions and
//! creation flags to request, and the lifecycle of the resulting instance.

pub mod version;
pub mod names;
pub mod negotiate;
pub mod lifecycle;
pub mod app_info;
