//! How the swapchain is set up from what the surface supports: its format,
//! present mode, extent, image count and sharing mode.
use vstd::prelude::*;

use crate::video::vk::COLOR_SPACE_SRGB_NONLINEAR;
use crate::video::vk::FORMAT_B8G8R8A8_SRGB;
use crate::video::vk::PRESENT_MODE_IMMEDIATE;
use crate::video::vk::SHARING_MODE_CONCURRENT;
use crate::video::vk::SHARING_MODE_EXCLUSIVE;

verus! {

/// The format the renderer prefers for the swapchain images.
pub const PREFERRED_FORMAT: i32 = FORMAT_B8G8R8A8_SRGB;

/// The color space the renderer prefers for the swapchain images.
pub const PREFERRED_COLOR_SPACE: i32 = COLOR_SPACE_SRGB_NONLINEAR;

/// The present mode the renderer prefers.
pub const PREFERRED_PRESENT_MODE: i32 = PRESENT_MODE_IMMEDIATE;

/// A width and a height in pixels.
#[derive(Clone, Copy, PartialEq, Eq, Structural, Debug)]
pub struct Extent2D {
    pub width: u32,
    pub height: u32,
}

/// A format a surface supports, with its color space.
#[derive(Clone, Copy, PartialEq, Eq, Structural, Debug)]
pub struct SurfaceFormat {
    pub format: i32,
    pub color_space: i32,
}

/// What a surface allows of a swapchain's images.
#[derive(Clone, Copy)]
pub struct SurfaceCapabilities {
    pub min_image_count: u32,
    /// Zero when there is no maximum.
    pub max_image_count: u32,
    /// `u32::MAX` as width when the swapchain sets the surface's size.
    pub current_extent: Extent2D,
    pub min_image_extent: Extent2D,
    pub max_image_extent: Extent2D,
}

/// Whether a surface format is the preferred one.
pub open spec fn is_preferred_format(f: SurfaceFormat) -> bool {
    f.format == PREFERRED_FORMAT && f.color_space == PREFERRED_COLOR_SPACE
}

/// The preferred format when the surface offers it, the first one otherwise.
pub open spec fn spec_choose_surface_format(formats: Seq<SurfaceFormat>) -> SurfaceFormat {
    if exists|i: int| 0 <= i < formats.len() && is_preferred_format(#[trigger] formats[i]) {
        SurfaceFormat { format: PREFERRED_FORMAT, color_space: PREFERRED_COLOR_SPACE }
    } else {
        formats[0]
    }
}

/// The format of the swapchain images, among the ones the surface offers
/// (at least one).
pub fn choose_surface_format(formats: &[SurfaceFormat]) -> (res: SurfaceFormat)
    requires
        formats@.len() > 0,
    ensures
        res == spec_choose_surface_format(formats@),
{
    let mut i: usize = 0;
    while i < formats.len()
        invariant
            i <= formats@.len(),
            forall|j: int| 0 <= j < i ==> !is_preferred_format(#[trigger] formats@[j]),
        decreases formats@.len() - i,
    {
        let f = formats[i];
        if f.format == PREFERRED_FORMAT && f.color_space == PREFERRED_COLOR_SPACE {
            return f;
        }
        i = i + 1;
    }
    formats[0]
}

/// The preferred present mode when the surface offers it, the first one otherwise.
pub open spec fn spec_choose_present_mode(present_modes: Seq<i32>) -> i32 {
    if present_modes.contains(PREFERRED_PRESENT_MODE) {
        PREFERRED_PRESENT_MODE
    } else {
        present_modes[0]
    }
}

/// The present mode of the swapchain, among the ones the surface offers (at
/// least one).
pub fn choose_present_mode(present_modes: &[i32]) -> (res: i32)
    requires
        present_modes@.len() > 0,
    ensures
        res == spec_choose_present_mode(present_modes@),
{
    let mut i: usize = 0;
    while i < present_modes.len()
        invariant
            i <= present_modes@.len(),
            forall|j: int| 0 <= j < i ==> present_modes@[j] != PREFERRED_PRESENT_MODE,
        decreases present_modes@.len() - i,
    {
        if present_modes[i] == PREFERRED_PRESENT_MODE {
            return PREFERRED_PRESENT_MODE;
        }
        i = i + 1;
    }
    present_modes[0]
}

/// The surface format is always one the surface offers: the preferred
/// `B8G8R8A8_SRGB` in the sRGB non-linear color space when it is offered,
/// and otherwise the first offered format.
pub proof fn lemma_surface_format_choice(formats: Seq<SurfaceFormat>)
    requires
        formats.len() > 0,
    ensures
        formats.contains(spec_choose_surface_format(formats)),
        (exists|i: int|
            0 <= i < formats.len() && formats[i].format == FORMAT_B8G8R8A8_SRGB && formats[i].color_space
                == COLOR_SPACE_SRGB_NONLINEAR) ==> spec_choose_surface_format(formats) == (SurfaceFormat {
            format: FORMAT_B8G8R8A8_SRGB,
            color_space: COLOR_SPACE_SRGB_NONLINEAR,
        }),
        !(exists|i: int|
            0 <= i < formats.len() && formats[i].format == FORMAT_B8G8R8A8_SRGB && formats[i].color_space
                == COLOR_SPACE_SRGB_NONLINEAR) ==> spec_choose_surface_format(formats) == formats[0],
{
    if exists|i: int|
        0 <= i < formats.len() && formats[i].format == FORMAT_B8G8R8A8_SRGB && formats[i].color_space
            == COLOR_SPACE_SRGB_NONLINEAR {
        let i = choose|i: int|
            0 <= i < formats.len() && formats[i].format == FORMAT_B8G8R8A8_SRGB && formats[i].color_space
                == COLOR_SPACE_SRGB_NONLINEAR;
        assert(is_preferred_format(formats[i]));
        assert(formats[i] == spec_choose_surface_format(formats));
    } else {
        assert(formats[0] == spec_choose_surface_format(formats));
    }
}

/// The present mode is always one the surface offers: `IMMEDIATE` whenever
/// the surface offers it, and otherwise the first offered mode.
pub proof fn lemma_present_mode_choice(present_modes: Seq<i32>)
    requires
        present_modes.len() > 0,
    ensures
        present_modes.contains(spec_choose_present_mode(present_modes)),
        present_modes.contains(PRESENT_MODE_IMMEDIATE) ==> spec_choose_present_mode(present_modes)
            == PRESENT_MODE_IMMEDIATE,
        !present_modes.contains(PRESENT_MODE_IMMEDIATE) ==> spec_choose_present_mode(present_modes)
            == present_modes[0],
{
    assert(present_modes[0] == present_modes[0]);
}

/// `value` brought into `min..=max`.
pub open spec fn clamped(value: u32, min: u32, max: u32) -> u32 {
    if value < min {
        min
    } else if value > max {
        max
    } else {
        value
    }
}

/// `value` brought into `min..=max`, as `u32::clamp` does.
pub fn clamp(value: u32, min: u32, max: u32) -> (res: u32)
    requires
        min <= max,
    ensures
        res == clamped(value, min, max),
{
    if value < min {
        min
    } else if value > max {
        max
    } else {
        value
    }
}

/// Whether the surface leaves the swapchain's size to the renderer.
pub open spec fn extent_is_free(capabilities: SurfaceCapabilities) -> bool {
    capabilities.current_extent.width == u32::MAX
}

/// The surface's size when it has one; otherwise the window's size brought
/// into the allowed range.
pub open spec fn spec_choose_extent(capabilities: SurfaceCapabilities, window_size: (u32, u32)) -> Extent2D {
    if !extent_is_free(capabilities) {
        capabilities.current_extent
    } else {
        Extent2D {
            width: clamped(
                window_size.0,
                capabilities.min_image_extent.width,
                capabilities.max_image_extent.width,
            ),
            height: clamped(
                window_size.1,
                capabilities.min_image_extent.height,
                capabilities.max_image_extent.height,
            ),
        }
    }
}

/// Whether the allowed range of sizes is not empty, which the renderer needs
/// when the surface leaves the size to it.
pub open spec fn extent_range_valid(capabilities: SurfaceCapabilities) -> bool {
    &&& capabilities.min_image_extent.width <= capabilities.max_image_extent.width
    &&& capabilities.min_image_extent.height <= capabilities.max_image_extent.height
}

/// The size of the swapchain images.
pub fn choose_extent(capabilities: &SurfaceCapabilities, window_size: (u32, u32)) -> (res: Extent2D)
    requires
        extent_is_free(*capabilities) ==> extent_range_valid(*capabilities),
    ensures
        res == spec_choose_extent(*capabilities, window_size),
{
    if capabilities.current_extent.width != u32::MAX {
        capabilities.current_extent
    } else {
        let (window_width, window_height) = window_size;
        let width = clamp(
            window_width,
            capabilities.min_image_extent.width,
            capabilities.max_image_extent.width,
        );
        let height = clamp(
            window_height,
            capabilities.min_image_extent.height,
            capabilities.max_image_extent.height,
        );
        Extent2D { width, height }
    }
}

/// One image more than the surface's minimum, but no more than its maximum
/// when it has one.
pub open spec fn spec_choose_image_count(capabilities: SurfaceCapabilities) -> u32 {
    let preferred = (capabilities.min_image_count + 1) as u32;
    if capabilities.max_image_count == 0 {
        preferred
    } else if preferred <= capabilities.max_image_count {
        preferred
    } else {
        capabilities.max_image_count
    }
}

/// The number of images the swapchain asks for.
pub fn choose_image_count(capabilities: &SurfaceCapabilities) -> (res: u32)
    requires
        capabilities.min_image_count < u32::MAX,
    ensures
        res == spec_choose_image_count(*capabilities),
{
    let preferred = capabilities.min_image_count + 1;
    if capabilities.max_image_count == 0 {
        preferred
    } else if preferred <= capabilities.max_image_count {
        preferred
    } else {
        capabilities.max_image_count
    }
}

/// How the swapchain images are shared between queue families.
pub struct SharingSettings {
    pub image_sharing_mode: i32,
    pub queue_family_index_count: u32,
    pub queue_family_indices: Vec<u32>,
}

/// The images are shared by both queue families when graphics and
/// presentation use different ones, and owned by one otherwise.
pub fn choose_sharing(graphics_queue_family: u32, present_queue_family: u32) -> (res: SharingSettings)
    ensures
        graphics_queue_family != present_queue_family ==> res.image_sharing_mode == SHARING_MODE_CONCURRENT
            && res.queue_family_index_count == 2 && res.queue_family_indices@ == seq![
            graphics_queue_family,
            present_queue_family,
        ],
        graphics_queue_family == present_queue_family ==> res.image_sharing_mode == SHARING_MODE_EXCLUSIVE
            && res.queue_family_index_count == 0 && res.queue_family_indices@.len() == 0,
{
    if graphics_queue_family != present_queue_family {
        let mut indices: Vec<u32> = Vec::new();
        indices.push(graphics_queue_family);
        indices.push(present_queue_family);
        SharingSettings {
            image_sharing_mode: SHARING_MODE_CONCURRENT,
            queue_family_index_count: 2,
            queue_family_indices: indices,
        }
    } else {
        SharingSettings {
            image_sharing_mode: SHARING_MODE_EXCLUSIVE,
            queue_family_index_count: 0,
            queue_family_indices: Vec::new(),
        }
    }
}

/// Everything the renderer decides about a new swapchain.
pub struct SwapchainSettings {
    pub format: SurfaceFormat,
    pub present_mode: i32,
    pub extent: Extent2D,
    pub image_count: u32,
    pub sharing: SharingSettings,
}

/// The swapchain settings for a surface with the given capabilities, formats
/// and present modes, a window of the given size, and the queue families
/// used for graphics and presentation.
pub fn swapchain_settings(
    capabilities: &SurfaceCapabilities,
    formats: &[SurfaceFormat],
    present_modes: &[i32],
    window_size: (u32, u32),
    graphics_queue_family: u32,
    present_queue_family: u32,
) -> (res: SwapchainSettings)
    requires
        formats@.len() > 0,
        present_modes@.len() > 0,
        extent_is_free(*capabilities) ==> extent_range_valid(*capabilities),
        capabilities.min_image_count < u32::MAX,
    ensures
        res.format == spec_choose_surface_format(formats@),
        res.present_mode == spec_choose_present_mode(present_modes@),
        res.extent == spec_choose_extent(*capabilities, window_size),
        res.image_count == spec_choose_image_count(*capabilities),
        graphics_queue_family != present_queue_family ==> res.sharing.image_sharing_mode
            == SHARING_MODE_CONCURRENT && res.sharing.queue_family_index_count == 2
            && res.sharing.queue_family_indices@ == seq![graphics_queue_family, present_queue_family],
        graphics_queue_family == present_queue_family ==> res.sharing.image_sharing_mode
            == SHARING_MODE_EXCLUSIVE && res.sharing.queue_family_index_count == 0
            && res.sharing.queue_family_indices@.len() == 0,
{
    SwapchainSettings {
        format: choose_surface_format(formats),
        present_mode: choose_present_mode(present_modes),
        extent: choose_extent(capabilities, window_size),
        image_count: choose_image_count(capabilities),
        sharing: choose_sharing(graphics_queue_family, present_queue_family),
    }
}

/// The chosen extent lies within the surface's allowed range whenever the
/// surface leaves the size to the renderer, and the image count respects the
/// surface's maximum.
pub proof fn lemma_swapchain_settings_within_limits(
    capabilities: SurfaceCapabilities,
    window_size: (u32, u32),
)
    requires
        extent_is_free(capabilities) ==> extent_range_valid(capabilities),
        capabilities.min_image_count < u32::MAX,
    ensures
        extent_is_free(capabilities) ==> {
            let e = spec_choose_extent(capabilities, window_size);
            &&& capabilities.min_image_extent.width <= e.width <= capabilities.max_image_extent.width
            &&& capabilities.min_image_extent.height <= e.height
                <= capabilities.max_image_extent.height
        },
        capabilities.max_image_count != 0 ==> spec_choose_image_count(capabilities)
            <= capabilities.max_image_count,
        spec_choose_image_count(capabilities) <= capabilities.min_image_count + 1,
        capabilities.max_image_count == 0 || capabilities.max_image_count > capabilities.min_image_count
            ==> spec_choose_image_count(capabilities) == capabilities.min_image_count + 1,
{
}

} // verus!
