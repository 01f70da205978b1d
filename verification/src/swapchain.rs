//! Choosing the swapchain for a surface: its format, present mode, extent and
//! image count, from what the surface reports.

use crate::codes::{
    bgra8_srgb_format, color_space_srgb_nonlinear, fifo_mode, format_b8g8r8a8_srgb, mailbox_mode,
    present_mode_fifo, present_mode_mailbox, srgb_nonlinear_space,
};
use vstd::prelude::*;

verus! {

/// A size in pixels.
#[derive(Clone, Copy, PartialEq, Eq, Structural, Debug)]
pub struct Extent {
    pub width: u32,
    pub height: u32,
}

impl Extent {
    /// Whether the size covers no pixel at all, as that of a minimised window
    /// does.
    pub open spec fn has_no_area(self) -> bool {
        self.width == 0 || self.height == 0
    }

    /// Whether the size covers no pixel at all.
    pub fn is_empty(self) -> (b: bool)
        ensures
            b == self.has_no_area(),
    {
        self.width == 0 || self.height == 0
    }
}

/// A pixel format together with the colour space it is shown in, both as the
/// driver numbers them.
#[derive(Clone, Copy, PartialEq, Eq, Structural, Debug)]
pub struct SurfaceFormat {
    pub format: i32,
    pub color_space: i32,
}

/// The limits a surface puts on its swapchains. A `max_image_count` of 0 means
/// that the surface sets no upper limit.
#[derive(Clone, Copy, PartialEq, Eq, Structural, Debug)]
pub struct SurfaceCapabilities {
    pub min_image_count: u32,
    pub max_image_count: u32,
    pub min_image_extent: Extent,
    pub max_image_extent: Extent,
}

impl SurfaceCapabilities {
    /// The limits are consistent: no minimum lies above its maximum.
    pub open spec fn wf(self) -> bool {
        &&& self.min_image_extent.width <= self.max_image_extent.width
        &&& self.min_image_extent.height <= self.max_image_extent.height
        &&& (self.max_image_count == 0 || self.min_image_count <= self.max_image_count)
    }
}

/// Everything a surface reports about the swapchains it supports.
#[derive(Clone, Debug)]
pub struct SurfaceSupport {
    pub capabilities: SurfaceCapabilities,
    pub formats: Vec<SurfaceFormat>,
    pub present_modes: Vec<i32>,
}

/// The parameters a swapchain is created with.
#[derive(Clone, Copy, PartialEq, Eq, Structural, Debug)]
pub struct SwapchainConfig {
    pub format: SurfaceFormat,
    pub present_mode: i32,
    pub extent: Extent,
    pub min_image_count: u32,
}

/// Why no swapchain is to be created.
#[derive(Clone, Copy, PartialEq, Eq, Structural, Debug)]
pub enum SwapchainError {
    /// The drawable area is empty. Creation is put off until it is not.
    ZeroArea,
    /// The surface supports no format at all.
    NoFormat,
}

/// The format the engine would rather have: 8-bit BGRA, sRGB encoded, in the
/// non-linear sRGB colour space.
pub open spec fn preferred_format() -> SurfaceFormat {
    SurfaceFormat { format: bgra8_srgb_format(), color_space: srgb_nonlinear_space() }
}

/// The format chosen among those a surface supports: the preferred one where
/// it is offered, else the first.
pub open spec fn chosen_format(formats: Seq<SurfaceFormat>) -> SurfaceFormat
    recommends
        formats.len() > 0,
{
    if formats.contains(preferred_format()) {
        preferred_format()
    } else {
        formats[0]
    }
}

/// The present mode chosen among those a surface supports: mailbox where it is
/// offered, else first-in-first-out, which paces frames by the vertical blank.
pub open spec fn chosen_present_mode(modes: Seq<i32>) -> i32 {
    if modes.contains(mailbox_mode()) {
        mailbox_mode()
    } else {
        fifo_mode()
    }
}

/// `value`, moved into the range from `low` to `high`.
pub open spec fn clamped(value: u32, low: u32, high: u32) -> u32 {
    if value < low {
        low
    } else if value > high {
        high
    } else {
        value
    }
}

/// The extent of the swapchain: the requested one, each side moved into the
/// range the surface allows.
pub open spec fn chosen_extent(capabilities: SurfaceCapabilities, requested: Extent) -> Extent {
    Extent {
        width: clamped(
            requested.width,
            capabilities.min_image_extent.width,
            capabilities.max_image_extent.width,
        ),
        height: clamped(
            requested.height,
            capabilities.min_image_extent.height,
            capabilities.max_image_extent.height,
        ),
    }
}

/// The number of images to ask for: one more than the surface's minimum, so
/// that the loop need not wait for the driver, but no more than its maximum.
pub open spec fn chosen_image_count(capabilities: SurfaceCapabilities) -> u32 {
    if capabilities.min_image_count == u32::MAX {
        u32::MAX
    } else if capabilities.max_image_count > 0 && capabilities.min_image_count + 1
        > capabilities.max_image_count {
        capabilities.max_image_count
    } else {
        (capabilities.min_image_count + 1) as u32
    }
}

/// What [`create`] answers for a surface with the given support and a
/// requested extent.
pub open spec fn planned(
    capabilities: SurfaceCapabilities,
    formats: Seq<SurfaceFormat>,
    modes: Seq<i32>,
    requested: Extent,
) -> Result<SwapchainConfig, SwapchainError> {
    if requested.has_no_area() || chosen_extent(capabilities, requested).has_no_area() {
        Err(SwapchainError::ZeroArea)
    } else if formats.len() == 0 {
        Err(SwapchainError::NoFormat)
    } else {
        Ok(
            SwapchainConfig {
                format: chosen_format(formats),
                present_mode: chosen_present_mode(modes),
                extent: chosen_extent(capabilities, requested),
                min_image_count: chosen_image_count(capabilities),
            },
        )
    }
}

/// Chooses the format of the swapchain among those the surface supports.
/// `None` where it supports none.
pub fn choose_surface_format(formats: &Vec<SurfaceFormat>) -> (chosen: Option<SurfaceFormat>)
    ensures
        formats@.len() == 0 ==> chosen is None,
        formats@.len() > 0 ==> chosen == Some(chosen_format(formats@)),
{
    if formats.len() == 0 {
        return None;
    }
    let wanted = SurfaceFormat {
        format: format_b8g8r8a8_srgb(),
        color_space: color_space_srgb_nonlinear(),
    };
    let mut i: usize = 0;
    while i < formats.len()
        invariant
            i <= formats@.len(),
            wanted == preferred_format(),
            forall|j: int| 0 <= j < i ==> formats@[j] != wanted,
        decreases formats@.len() - i,
    {
        if formats[i] == wanted {
            return Some(wanted);
        }
        i = i + 1;
    }
    Some(formats[0])
}

/// Chooses the present mode of the swapchain among those the surface supports.
pub fn choose_present_mode(modes: &Vec<i32>) -> (chosen: i32)
    ensures
        chosen == chosen_present_mode(modes@),
{
    let mailbox = present_mode_mailbox();
    let mut i: usize = 0;
    while i < modes.len()
        invariant
            i <= modes@.len(),
            mailbox == mailbox_mode(),
            forall|j: int| 0 <= j < i ==> modes@[j] != mailbox,
        decreases modes@.len() - i,
    {
        if modes[i] == mailbox {
            return mailbox;
        }
        i = i + 1;
    }
    present_mode_fifo()
}

/// Moves `value` into the range from `low` to `high`.
pub fn clamp(value: u32, low: u32, high: u32) -> (r: u32)
    ensures
        r == clamped(value, low, high),
        low <= high ==> low <= r <= high,
{
    if value < low {
        low
    } else if value > high {
        high
    } else {
        value
    }
}

/// Chooses the extent of the swapchain: the requested one, clamped to what the
/// surface allows.
pub fn choose_extent(capabilities: &SurfaceCapabilities, requested: Extent) -> (chosen: Extent)
    ensures
        chosen == chosen_extent(*capabilities, requested),
{
    Extent {
        width: clamp(
            requested.width,
            capabilities.min_image_extent.width,
            capabilities.max_image_extent.width,
        ),
        height: clamp(
            requested.height,
            capabilities.min_image_extent.height,
            capabilities.max_image_extent.height,
        ),
    }
}

/// Chooses the number of images to ask the driver for.
pub fn choose_image_count(capabilities: &SurfaceCapabilities) -> (count: u32)
    ensures
        count == chosen_image_count(*capabilities),
{
    if capabilities.min_image_count == u32::MAX {
        return u32::MAX;
    }
    let wanted = capabilities.min_image_count + 1;
    if capabilities.max_image_count > 0 && wanted > capabilities.max_image_count {
        capabilities.max_image_count
    } else {
        wanted
    }
}

/// Decides the swapchain for a surface, given what the surface supports and
/// the size of its drawable area.
///
/// An empty area, requested or left after clamping, puts creation off; a
/// surface without formats cannot be drawn to. Otherwise the answer holds the
/// chosen format, present mode, extent and image count.
pub fn create(support: &SurfaceSupport, requested: Extent) -> (r: Result<
    SwapchainConfig,
    SwapchainError,
>)
    ensures
        r == planned(support.capabilities, support.formats@, support.present_modes@, requested),
{
    let extent = choose_extent(&support.capabilities, requested);
    if requested.is_empty() || extent.is_empty() {
        return Err(SwapchainError::ZeroArea);
    }
    match choose_surface_format(&support.formats) {
        None => Err(SwapchainError::NoFormat),
        Some(format) => Ok(
            SwapchainConfig {
                format,
                present_mode: choose_present_mode(&support.present_modes),
                extent,
                min_image_count: choose_image_count(&support.capabilities),
            },
        ),
    }
}

/// No swapchain is ever planned with an empty extent, and none for an empty
/// drawable area.
pub proof fn lemma_no_swapchain_without_area(
    capabilities: SurfaceCapabilities,
    formats: Seq<SurfaceFormat>,
    modes: Seq<i32>,
    requested: Extent,
)
    ensures
        requested.has_no_area() ==> planned(capabilities, formats, modes, requested) == Err::<
            SwapchainConfig,
            SwapchainError,
        >(SwapchainError::ZeroArea),
        planned(capabilities, formats, modes, requested) matches Ok(config)
            ==> !config.extent.has_no_area() && !requested.has_no_area(),
{
}

/// Where the surface's limits are consistent, the extent of a planned
/// swapchain lies within them, and it is the requested size itself where that
/// size lies within them.
pub proof fn lemma_extent_within_limits(capabilities: SurfaceCapabilities, requested: Extent)
    requires
        capabilities.wf(),
    ensures
        capabilities.min_image_extent.width <= chosen_extent(capabilities, requested).width
            <= capabilities.max_image_extent.width,
        capabilities.min_image_extent.height <= chosen_extent(capabilities, requested).height
            <= capabilities.max_image_extent.height,
        capabilities.min_image_extent.width <= requested.width
            <= capabilities.max_image_extent.width && capabilities.min_image_extent.height
            <= requested.height <= capabilities.max_image_extent.height ==> chosen_extent(
            capabilities,
            requested,
        ) == requested,
{
}

/// Planning again for a surface that reports the same support, with the size
/// the swapchain already has, gives the same swapchain: format, present mode,
/// extent and image count.
pub proof fn lemma_recreation_is_idempotent(
    capabilities: SurfaceCapabilities,
    formats: Seq<SurfaceFormat>,
    modes: Seq<i32>,
    requested: Extent,
)
    requires
        capabilities.wf(),
        planned(capabilities, formats, modes, requested) is Ok,
    ensures
        planned(
            capabilities,
            formats,
            modes,
            planned(capabilities, formats, modes, requested)->Ok_0.extent,
        ) == planned(capabilities, formats, modes, requested),
{
}

} // verus!
