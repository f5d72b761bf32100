//! The Vulkan values the renderer's decisions depend on, as the Vulkan
//! specification numbers them.
use vstd::prelude::*;

verus! {

/// `VK_FORMAT_R8G8B8A8_SRGB`.
pub const FORMAT_R8G8B8A8_SRGB: i32 = 43;

/// `VK_FORMAT_B8G8R8A8_SRGB`.
pub const FORMAT_B8G8R8A8_SRGB: i32 = 50;

/// `VK_FORMAT_R32_UINT`.
pub const FORMAT_R32_UINT: i32 = 98;

/// `VK_FORMAT_R32G32_SFLOAT`.
pub const FORMAT_R32G32_SFLOAT: i32 = 103;

/// `VK_FORMAT_R32G32B32_SFLOAT`.
pub const FORMAT_R32G32B32_SFLOAT: i32 = 106;

/// `VK_FORMAT_D32_SFLOAT`.
pub const FORMAT_D32_SFLOAT: i32 = 126;

/// `VK_FORMAT_D24_UNORM_S8_UINT`.
pub const FORMAT_D24_UNORM_S8_UINT: i32 = 129;

/// `VK_FORMAT_D32_SFLOAT_S8_UINT`.
pub const FORMAT_D32_SFLOAT_S8_UINT: i32 = 130;

/// `VK_COLOR_SPACE_SRGB_NONLINEAR_KHR`.
pub const COLOR_SPACE_SRGB_NONLINEAR: i32 = 0;

/// `VK_PRESENT_MODE_IMMEDIATE_KHR`.
pub const PRESENT_MODE_IMMEDIATE: i32 = 0;

/// `VK_PRESENT_MODE_MAILBOX_KHR`.
pub const PRESENT_MODE_MAILBOX: i32 = 1;

/// `VK_PRESENT_MODE_FIFO_KHR`.
pub const PRESENT_MODE_FIFO: i32 = 2;

/// `VK_IMAGE_TILING_OPTIMAL`.
pub const IMAGE_TILING_OPTIMAL: i32 = 0;

/// `VK_IMAGE_TILING_LINEAR`.
pub const IMAGE_TILING_LINEAR: i32 = 1;

/// `VK_SHARING_MODE_EXCLUSIVE`.
pub const SHARING_MODE_EXCLUSIVE: i32 = 0;

/// `VK_SHARING_MODE_CONCURRENT`.
pub const SHARING_MODE_CONCURRENT: i32 = 1;

/// `VK_PHYSICAL_DEVICE_TYPE_OTHER`.
pub const PHYSICAL_DEVICE_TYPE_OTHER: i32 = 0;

/// `VK_PHYSICAL_DEVICE_TYPE_INTEGRATED_GPU`.
pub const PHYSICAL_DEVICE_TYPE_INTEGRATED_GPU: i32 = 1;

/// `VK_PHYSICAL_DEVICE_TYPE_DISCRETE_GPU`.
pub const PHYSICAL_DEVICE_TYPE_DISCRETE_GPU: i32 = 2;

/// `VK_PHYSICAL_DEVICE_TYPE_VIRTUAL_GPU`.
pub const PHYSICAL_DEVICE_TYPE_VIRTUAL_GPU: i32 = 3;

/// `VK_PHYSICAL_DEVICE_TYPE_CPU`.
pub const PHYSICAL_DEVICE_TYPE_CPU: i32 = 4;

/// `VK_MEMORY_PROPERTY_DEVICE_LOCAL_BIT`.
pub const MEMORY_PROPERTY_DEVICE_LOCAL: u32 = 0x1;

/// `VK_MEMORY_PROPERTY_HOST_VISIBLE_BIT`.
pub const MEMORY_PROPERTY_HOST_VISIBLE: u32 = 0x2;

/// `VK_MEMORY_PROPERTY_HOST_COHERENT_BIT`.
pub const MEMORY_PROPERTY_HOST_COHERENT: u32 = 0x4;

/// `VK_QUEUE_GRAPHICS_BIT`.
pub const QUEUE_GRAPHICS: u32 = 0x1;

/// `VK_FORMAT_FEATURE_DEPTH_STENCIL_ATTACHMENT_BIT`.
pub const FORMAT_FEATURE_DEPTH_STENCIL_ATTACHMENT: u32 = 0x200;

/// `VK_DEBUG_UTILS_MESSAGE_SEVERITY_VERBOSE_BIT_EXT`.
pub const DEBUG_SEVERITY_VERBOSE: u32 = 0x1;

/// `VK_DEBUG_UTILS_MESSAGE_SEVERITY_INFO_BIT_EXT`.
pub const DEBUG_SEVERITY_INFO: u32 = 0x10;

/// `VK_DEBUG_UTILS_MESSAGE_SEVERITY_WARNING_BIT_EXT`.
pub const DEBUG_SEVERITY_WARNING: u32 = 0x100;

/// `VK_DEBUG_UTILS_MESSAGE_SEVERITY_ERROR_BIT_EXT`.
pub const DEBUG_SEVERITY_ERROR: u32 = 0x1000;

/// `VK_DEBUG_UTILS_MESSAGE_TYPE_GENERAL_BIT_EXT`.
pub const DEBUG_TYPE_GENERAL: u32 = 0x1;

/// `VK_DEBUG_UTILS_MESSAGE_TYPE_VALIDATION_BIT_EXT`.
pub const DEBUG_TYPE_VALIDATION: u32 = 0x2;

/// `VK_DEBUG_UTILS_MESSAGE_TYPE_PERFORMANCE_BIT_EXT`.
pub const DEBUG_TYPE_PERFORMANCE: u32 = 0x4;

/// Whether every bit of `wanted` is set in `flags`, as `Flags::contains` tells.
pub open spec fn spec_contains_flags(flags: u32, wanted: u32) -> bool {
    flags & wanted == wanted
}

/// Whether every bit of `wanted` is set in `flags`.
pub fn contains_flags(flags: u32, wanted: u32) -> (res: bool)
    ensures
        res == spec_contains_flags(flags, wanted),
{
    flags & wanted == wanted
}

} // verus!
