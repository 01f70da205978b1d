//! Fixed parameters of the engine.

use vstd::prelude::*;

verus! {

/// Whether the validation layers are requested, and which.
pub struct ValidationInfo {
    pub is_enable: bool,
    pub required_validation_layers: [&'static str; 1],
}

/// The device extensions that the engine cannot work without.
pub struct DeviceExtension {
    pub names: [&'static str; 1],
}

/// The number of frames that may be submitted before the first of them has
/// been confirmed complete.
pub const MAX_FRAMES_IN_FLIGHT: usize = 2;

/// The index list of the two triangles that make up the quad.
pub const INDICES_DATA: [u32; 6] = [0, 1, 2, 2, 3, 0];

/// The validation setting of the engine: the Khronos layer, switched on.
pub fn validation() -> (info: ValidationInfo)
    ensures
        info.is_enable,
        info.required_validation_layers@ == seq!["VK_LAYER_KHRONOS_validation"],
{
    ValidationInfo { is_enable: true, required_validation_layers: ["VK_LAYER_KHRONOS_validation"] }
}

/// The one device extension the engine asks for: presentation to a swapchain.
pub fn device_extensions() -> (ext: DeviceExtension)
    ensures
        ext.names@ == seq!["VK_KHR_swapchain"],
{
    DeviceExtension { names: ["VK_KHR_swapchain"] }
}

} // verus!
