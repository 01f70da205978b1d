use frame_pacing::swapchain::{
    choose_extent, choose_image_count, choose_present_mode, choose_surface_format, clamp, create,
    Extent, SurfaceCapabilities, SurfaceFormat, SurfaceSupport, SwapchainConfig, SwapchainError,
};

fn limits() -> SurfaceCapabilities {
    SurfaceCapabilities {
        min_image_count: 2,
        max_image_count: 3,
        min_image_extent: Extent { width: 1, height: 1 },
        max_image_extent: Extent { width: 4096, height: 4096 },
    }
}

fn srgb() -> SurfaceFormat {
    SurfaceFormat {
        format: ash::vk::Format::B8G8R8A8_SRGB.as_raw(),
        color_space: ash::vk::ColorSpaceKHR::SRGB_NONLINEAR.as_raw(),
    }
}

fn unorm() -> SurfaceFormat {
    SurfaceFormat {
        format: ash::vk::Format::B8G8R8A8_UNORM.as_raw(),
        color_space: ash::vk::ColorSpaceKHR::SRGB_NONLINEAR.as_raw(),
    }
}

fn surface(formats: Vec<SurfaceFormat>, present_modes: Vec<i32>) -> SurfaceSupport {
    SurfaceSupport { capabilities: limits(), formats, present_modes }
}

#[test]
fn preferred_format_is_taken_where_offered() {
    assert_eq!(choose_surface_format(&vec![unorm(), srgb()]), Some(srgb()));
    assert_eq!(srgb(), SurfaceFormat { format: 50, color_space: 0 });
}

#[test]
fn first_format_is_the_fallback() {
    let rgba = SurfaceFormat { format: ash::vk::Format::R8G8B8A8_UNORM.as_raw(), color_space: 0 };
    assert_eq!(choose_surface_format(&vec![unorm(), rgba]), Some(unorm()));
}

#[test]
fn preferred_format_needs_the_colour_space_too() {
    let other_space = SurfaceFormat { format: srgb().format, color_space: 1_000_104_001 };
    assert_eq!(choose_surface_format(&vec![other_space, unorm()]), Some(other_space));
}

#[test]
fn no_format_gives_none() {
    assert_eq!(choose_surface_format(&vec![]), None);
}

#[test]
fn mailbox_is_preferred() {
    let fifo = ash::vk::PresentModeKHR::FIFO.as_raw();
    let mailbox = ash::vk::PresentModeKHR::MAILBOX.as_raw();
    let immediate = ash::vk::PresentModeKHR::IMMEDIATE.as_raw();
    assert_eq!(choose_present_mode(&vec![fifo, immediate, mailbox]), mailbox);
    assert_eq!(mailbox, 1);
}

#[test]
fn fifo_is_the_fallback() {
    let fifo = ash::vk::PresentModeKHR::FIFO.as_raw();
    let immediate = ash::vk::PresentModeKHR::IMMEDIATE.as_raw();
    assert_eq!(choose_present_mode(&vec![immediate, fifo]), fifo);
    assert_eq!(choose_present_mode(&vec![immediate]), fifo);
    assert_eq!(choose_present_mode(&vec![]), 2);
}

#[test]
fn clamp_moves_into_range() {
    assert_eq!(clamp(5, 10, 20), 10);
    assert_eq!(clamp(25, 10, 20), 20);
    assert_eq!(clamp(15, 10, 20), 15);
    assert_eq!(clamp(10, 10, 20), 10);
    assert_eq!(clamp(20, 10, 20), 20);
}

#[test]
fn extent_is_clamped_per_side() {
    let caps = SurfaceCapabilities {
        min_image_count: 2,
        max_image_count: 0,
        min_image_extent: Extent { width: 100, height: 100 },
        max_image_extent: Extent { width: 1000, height: 500 },
    };
    assert_eq!(
        choose_extent(&caps, Extent { width: 800, height: 600 }),
        Extent { width: 800, height: 500 }
    );
    assert_eq!(
        choose_extent(&caps, Extent { width: 50, height: 300 }),
        Extent { width: 100, height: 300 }
    );
}

#[test]
fn image_count_is_one_above_the_minimum() {
    assert_eq!(choose_image_count(&limits()), 3);
    let unlimited = SurfaceCapabilities { max_image_count: 0, ..limits() };
    assert_eq!(choose_image_count(&unlimited), 3);
    let tight = SurfaceCapabilities { min_image_count: 2, max_image_count: 2, ..limits() };
    assert_eq!(choose_image_count(&tight), 2);
    let huge = SurfaceCapabilities { min_image_count: u32::MAX, max_image_count: 0, ..limits() };
    assert_eq!(choose_image_count(&huge), u32::MAX);
}

#[test]
fn create_puts_the_choices_together() {
    let support = surface(vec![unorm(), srgb()], vec![2, 1]);
    assert_eq!(
        create(&support, Extent { width: 800, height: 600 }),
        Ok(SwapchainConfig {
            format: srgb(),
            present_mode: 1,
            extent: Extent { width: 800, height: 600 },
            min_image_count: 3,
        })
    );
}

#[test]
fn zero_area_defers_creation() {
    let support = surface(vec![srgb()], vec![2]);
    assert_eq!(create(&support, Extent { width: 0, height: 600 }), Err(SwapchainError::ZeroArea));
    assert_eq!(create(&support, Extent { width: 800, height: 0 }), Err(SwapchainError::ZeroArea));
    assert_eq!(create(&support, Extent { width: 0, height: 0 }), Err(SwapchainError::ZeroArea));
}

#[test]
fn zero_area_after_clamping_defers_creation() {
    let minimised = SurfaceCapabilities {
        min_image_count: 2,
        max_image_count: 3,
        min_image_extent: Extent { width: 0, height: 0 },
        max_image_extent: Extent { width: 0, height: 0 },
    };
    let support =
        SurfaceSupport { capabilities: minimised, formats: vec![srgb()], present_modes: vec![2] };
    assert_eq!(create(&support, Extent { width: 800, height: 600 }), Err(SwapchainError::ZeroArea));
}

#[test]
fn zero_area_is_reported_before_missing_formats() {
    let support = surface(vec![], vec![2]);
    assert_eq!(create(&support, Extent { width: 0, height: 0 }), Err(SwapchainError::ZeroArea));
}

#[test]
fn surface_without_formats_is_refused() {
    let support = surface(vec![], vec![2]);
    assert_eq!(create(&support, Extent { width: 800, height: 600 }), Err(SwapchainError::NoFormat));
}

#[test]
fn recreation_with_unchanged_size_gives_the_same_swapchain() {
    let support = surface(vec![unorm(), srgb()], vec![2, 1]);
    let first = create(&support, Extent { width: 5000, height: 600 }).unwrap();
    assert_eq!(first.extent, Extent { width: 4096, height: 600 });
    let again = create(&support, Extent { width: 5000, height: 600 }).unwrap();
    assert_eq!(again, first);
    let from_extent = create(&support, first.extent).unwrap();
    assert_eq!(from_extent.format, first.format);
    assert_eq!(from_extent.extent, first.extent);
}

#[test]
fn empty_extent_is_told_apart() {
    assert!(Extent { width: 0, height: 1 }.is_empty());
    assert!(Extent { width: 1, height: 0 }.is_empty());
    assert!(!Extent { width: 1, height: 1 }.is_empty());
}
