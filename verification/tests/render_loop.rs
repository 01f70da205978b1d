use frame_pacing::constants::{validation, ValidationInfo, MAX_FRAMES_IN_FLIGHT};
use frame_pacing::engine::VulkanApiObjects;
use frame_pacing::frame::{Failure, FrameAction, FrameEvent, Generation, Operation, Phase};
use frame_pacing::lifecycle::Resource;
use frame_pacing::swapchain::{
    Extent, SurfaceCapabilities, SurfaceFormat, SurfaceSupport, SwapchainConfig,
};

const OUT_OF_DATE: i32 = -1_000_001_004;
const SUBOPTIMAL: i32 = 1_000_001_003;
const DEVICE_LOST: i32 = -4;

fn surface_support() -> SurfaceSupport {
    SurfaceSupport {
        capabilities: SurfaceCapabilities {
            min_image_count: 2,
            max_image_count: 8,
            min_image_extent: Extent { width: 1, height: 1 },
            max_image_extent: Extent { width: 4096, height: 4096 },
        },
        formats: vec![
            SurfaceFormat { format: 44, color_space: 0 },
            SurfaceFormat { format: 50, color_space: 0 },
        ],
        present_modes: vec![2, 1],
    }
}

fn report(width: u32, height: u32) -> FrameEvent {
    FrameEvent::SurfaceReport { support: surface_support(), drawable: Extent { width, height } }
}

fn built(images: u32) -> FrameEvent {
    FrameEvent::Built {
        built: Generation {
            images,
            image_views: images,
            frame_targets: images,
            uniform_buffers: images,
            descriptor_sets: images,
            command_buffers: images,
        },
    }
}

fn config(width: u32, height: u32) -> SwapchainConfig {
    SwapchainConfig {
        format: SurfaceFormat { format: 50, color_space: 0 },
        present_mode: 1,
        extent: Extent { width, height },
        min_image_count: 3,
    }
}

fn generation_teardown() -> Vec<Resource> {
    vec![
        Resource::CommandBuffers,
        Resource::DescriptorSets,
        Resource::DescriptorPool,
        Resource::UniformBuffers,
        Resource::Framebuffers,
        Resource::Pipeline,
        Resource::PipelineLayout,
        Resource::RenderPass,
        Resource::ImageViews,
        Resource::Swapchain,
    ]
}

fn generation_build() -> Vec<Resource> {
    let mut order = generation_teardown();
    order.reverse();
    order
}

fn running(width: u32, height: u32, images: u32) -> VulkanApiObjects {
    let mut objects = VulkanApiObjects::init(1, &validation());
    assert_eq!(objects.pump(report(width, height)), FrameAction::Build { config: config(width, height) });
    assert_eq!(objects.pump(built(images)), FrameAction::Rest);
    objects
}

fn draw_frame(objects: &mut VulkanApiObjects, elapsed: u32, image_index: u32) {
    let slot = objects.current_frame();
    assert_eq!(objects.draw(elapsed), FrameAction::Acquire { slot, timeout: u64::MAX });
    assert_eq!(
        objects.pump(FrameEvent::Acquired { image_index, suboptimal: false }),
        FrameAction::Submit { slot, image_index, elapsed, wait_stage: 0x400 }
    );
    assert_eq!(objects.pump(FrameEvent::Submitted), FrameAction::Present { slot, image_index });
    assert_eq!(objects.pump(FrameEvent::Presented { suboptimal: false }), FrameAction::Rest);
}

#[test]
fn init_plans_the_context() {
    let objects = VulkanApiObjects::init(7, &validation());
    assert_eq!(
        objects.plan(),
        &vec![
            Resource::Instance,
            Resource::DebugMessenger,
            Resource::Surface,
            Resource::Device,
            Resource::DescriptorSetLayout,
            Resource::CommandPool,
            Resource::VertexBuffer,
            Resource::IndexBuffer,
            Resource::SyncObjects,
        ]
    );
    assert_eq!(objects.phase(), Phase::RecreateSwapchain { planned: None });
    assert_eq!(objects.current_frame(), 0);
    assert_eq!(objects.swapchain(), None);
    assert_eq!(objects.image_count(), 0);
    assert!(objects.windows().contains(7));
    assert_eq!(objects.windows().len(), 1);
    assert!(objects.is_alive(Resource::Device));
    assert!(!objects.is_alive(Resource::Swapchain));
}

#[test]
fn init_without_validation_has_no_messenger() {
    let off = ValidationInfo { is_enable: false, required_validation_layers: ["VK_LAYER_KHRONOS_validation"] };
    let objects = VulkanApiObjects::init(7, &off);
    assert!(!objects.plan().contains(&Resource::DebugMessenger));
    assert!(!objects.is_alive(Resource::DebugMessenger));
    assert_eq!(objects.plan().len(), 8);
}

#[test]
fn init_compute_builds_an_instance_only() {
    let mut objects = VulkanApiObjects::init_compute();
    assert_eq!(objects.plan(), &vec![Resource::Instance]);
    assert_eq!(objects.phase(), Phase::Compute);
    assert!(objects.windows().is_empty());
    assert_eq!(objects.draw(5), FrameAction::Rest);
    assert_eq!(objects.pump(report(800, 600)), FrameAction::Rest);
    assert_eq!(objects.phase(), Phase::Compute);
}

#[test]
fn first_report_builds_the_swapchain() {
    let mut objects = VulkanApiObjects::init(1, &validation());
    assert_eq!(objects.draw(0), FrameAction::Survey);
    assert_eq!(objects.pump(report(800, 600)), FrameAction::Build { config: config(800, 600) });
    assert_eq!(objects.plan(), &generation_build());
    assert_eq!(objects.phase(), Phase::RecreateSwapchain { planned: Some(config(800, 600)) });
    assert_eq!(objects.swapchain(), None);
    assert_eq!(objects.pump(built(3)), FrameAction::Rest);
    assert_eq!(objects.phase(), Phase::Idle);
    assert_eq!(objects.swapchain(), Some(config(800, 600)));
    assert_eq!(objects.image_count(), 3);
    assert!(objects.plan().is_empty());
}

#[test]
fn a_frame_goes_through_its_phases() {
    let mut objects = running(800, 600, 3);
    assert_eq!(objects.draw(1234), FrameAction::Acquire { slot: 0, timeout: u64::MAX });
    assert_eq!(objects.phase(), Phase::AcquireImage);
    assert!(!objects.is_pending(0));
    assert_eq!(
        objects.pump(FrameEvent::Acquired { image_index: 2, suboptimal: false }),
        FrameAction::Submit { slot: 0, image_index: 2, elapsed: 1234, wait_stage: 0x400 }
    );
    assert_eq!(objects.phase(), Phase::RecordedSubmit { image_index: 2 });
    assert!(objects.is_pending(0));
    assert_eq!(
        objects.pump(FrameEvent::Submitted),
        FrameAction::Present { slot: 0, image_index: 2 }
    );
    assert_eq!(objects.phase(), Phase::Present { image_index: 2 });
    assert_eq!(objects.pump(FrameEvent::Presented { suboptimal: false }), FrameAction::Rest);
    assert_eq!(objects.phase(), Phase::Idle);
    assert_eq!(objects.current_frame(), 1);
    assert!(objects.is_pending(0));
    assert!(!objects.is_pending(1));
}

#[test]
fn submit_waits_at_the_colour_attachment_stage() {
    let mut objects = running(800, 600, 3);
    objects.draw(0);
    let action = objects.pump(FrameEvent::Acquired { image_index: 0, suboptimal: false });
    let stage = ash::vk::PipelineStageFlags::COLOR_ATTACHMENT_OUTPUT.as_raw();
    assert_eq!(action, FrameAction::Submit { slot: 0, image_index: 0, elapsed: 0, wait_stage: stage });
}

#[test]
fn the_cursor_is_periodic() {
    let mut objects = running(800, 600, 3);
    assert_eq!(MAX_FRAMES_IN_FLIGHT, 2);
    let mut seen = Vec::new();
    for frame in 0..6u32 {
        seen.push(objects.current_frame());
        draw_frame(&mut objects, frame, frame % 3);
    }
    assert_eq!(seen, vec![0, 1, 0, 1, 0, 1]);
    assert_eq!(objects.current_frame(), 0);
}

#[test]
fn a_slot_is_waited_for_before_it_is_used_again() {
    let mut objects = running(800, 600, 3);
    draw_frame(&mut objects, 0, 0);
    draw_frame(&mut objects, 1, 1);
    assert!(objects.is_pending(0));
    assert!(objects.is_pending(1));
    assert_eq!(objects.draw(2), FrameAction::Acquire { slot: 0, timeout: u64::MAX });
    assert!(!objects.is_pending(0));
    assert!(objects.is_pending(1));
    objects.pump(FrameEvent::Acquired { image_index: 2, suboptimal: false });
    assert!(objects.is_pending(0));
    assert!(!objects.is_pending(2));
}

#[test]
fn suboptimal_on_acquire_is_drawn_all_the_same() {
    let mut objects = running(800, 600, 3);
    objects.draw(9);
    assert_eq!(
        objects.pump(FrameEvent::Acquired { image_index: 1, suboptimal: true }),
        FrameAction::Submit { slot: 0, image_index: 1, elapsed: 9, wait_stage: 0x400 }
    );
}

#[test]
fn out_of_date_on_acquire_skips_the_frame() {
    let mut objects = running(800, 600, 3);
    draw_frame(&mut objects, 0, 0);
    assert_eq!(objects.draw(1), FrameAction::Acquire { slot: 1, timeout: u64::MAX });
    assert_eq!(
        objects.pump(FrameEvent::AcquireFailed { code: OUT_OF_DATE }),
        FrameAction::TearDown
    );
    assert_eq!(objects.plan(), &generation_teardown());
    assert_eq!(objects.phase(), Phase::RecreateSwapchain { planned: None });
    assert_eq!(objects.current_frame(), 1);
    assert!(!objects.is_pending(0));
    assert!(!objects.is_pending(1));
    assert_eq!(objects.swapchain(), None);
    assert!(!objects.is_alive(Resource::Swapchain));
    assert!(!objects.is_alive(Resource::UniformBuffers));
    assert!(objects.is_alive(Resource::VertexBuffer));
    assert!(objects.is_alive(Resource::SyncObjects));
}

#[test]
fn out_of_date_on_present_recreates_after_the_frame() {
    let mut objects = running(800, 600, 3);
    objects.draw(0);
    objects.pump(FrameEvent::Acquired { image_index: 0, suboptimal: false });
    objects.pump(FrameEvent::Submitted);
    assert_eq!(
        objects.pump(FrameEvent::PresentFailed { code: OUT_OF_DATE }),
        FrameAction::TearDown
    );
    assert_eq!(objects.current_frame(), 1);
    assert_eq!(objects.phase(), Phase::RecreateSwapchain { planned: None });
}

#[test]
fn suboptimal_on_present_recreates_after_the_frame() {
    let mut objects = running(800, 600, 3);
    objects.draw(0);
    objects.pump(FrameEvent::Acquired { image_index: 0, suboptimal: false });
    objects.pump(FrameEvent::Submitted);
    assert_eq!(objects.pump(FrameEvent::Presented { suboptimal: true }), FrameAction::TearDown);
    assert_eq!(objects.current_frame(), 1);

    let mut other = running(800, 600, 3);
    other.draw(0);
    other.pump(FrameEvent::Acquired { image_index: 0, suboptimal: false });
    other.pump(FrameEvent::Submitted);
    assert_eq!(other.pump(FrameEvent::PresentFailed { code: SUBOPTIMAL }), FrameAction::TearDown);
    assert_eq!(other.current_frame(), 1);
}

#[test]
fn other_errors_on_acquire_stop_the_loop() {
    let mut objects = running(800, 600, 3);
    objects.draw(0);
    let failure = Failure::Driver { operation: Operation::AcquireImage, code: DEVICE_LOST };
    assert_eq!(
        objects.pump(FrameEvent::AcquireFailed { code: DEVICE_LOST }),
        FrameAction::Abort { failure }
    );
    assert_eq!(objects.phase(), Phase::Failed { failure });
    assert_eq!(objects.exit_status(), 1);
    assert_eq!(objects.plan().len(), 19);
    assert_eq!(objects.plan()[0], Resource::SyncObjects);
    assert_eq!(objects.plan()[18], Resource::Instance);
    assert!(!objects.is_alive(Resource::Instance));
    assert_eq!(objects.draw(1), FrameAction::Rest);
    assert_eq!(objects.pump(FrameEvent::Submitted), FrameAction::Abort { failure });
    assert!(objects.plan().is_empty());
}

#[test]
fn other_errors_on_present_stop_the_loop() {
    let mut objects = running(800, 600, 3);
    objects.draw(0);
    objects.pump(FrameEvent::Acquired { image_index: 0, suboptimal: false });
    objects.pump(FrameEvent::Submitted);
    let failure = Failure::Driver { operation: Operation::QueuePresent, code: DEVICE_LOST };
    assert_eq!(
        objects.pump(FrameEvent::PresentFailed { code: DEVICE_LOST }),
        FrameAction::Abort { failure }
    );
    assert_eq!(objects.exit_status(), 1);
}

#[test]
fn a_fault_stops_the_loop_in_any_phase() {
    let mut objects = running(800, 600, 3);
    objects.draw(0);
    objects.pump(FrameEvent::Acquired { image_index: 0, suboptimal: false });
    let failure = Failure::Driver { operation: Operation::QueueSubmit, code: -2 };
    assert_eq!(
        objects.pump(FrameEvent::Fault { operation: Operation::QueueSubmit, code: -2 }),
        FrameAction::Abort { failure }
    );
    assert_eq!(failure.describe(), "Failed to execute queue submit.");

    let mut waiting = VulkanApiObjects::init(1, &validation());
    let build = Failure::Driver { operation: Operation::Build, code: -1 };
    assert_eq!(
        waiting.pump(FrameEvent::Fault { operation: Operation::Build, code: -1 }),
        FrameAction::Abort { failure: build }
    );
    assert_eq!(waiting.plan().len(), 9);
}

#[test]
fn an_image_the_swapchain_lacks_stops_the_loop() {
    let mut objects = running(800, 600, 3);
    objects.draw(0);
    let failure = Failure::ImageOutOfRange { image_index: 3 };
    assert_eq!(
        objects.pump(FrameEvent::Acquired { image_index: 3, suboptimal: false }),
        FrameAction::Abort { failure }
    );
}

#[test]
fn a_swapchain_without_images_stops_the_loop() {
    let mut objects = VulkanApiObjects::init(1, &validation());
    objects.pump(report(800, 600));
    assert_eq!(
        objects.pump(built(0)),
        FrameAction::Abort { failure: Failure::NoImages }
    );
}

#[test]
fn a_surface_without_formats_stops_the_loop() {
    let mut objects = VulkanApiObjects::init(1, &validation());
    let mut support = surface_support();
    support.formats.clear();
    assert_eq!(
        objects.pump(FrameEvent::SurfaceReport { support, drawable: Extent { width: 8, height: 8 } }),
        FrameAction::Abort { failure: Failure::NoSurfaceFormat }
    );
}

#[test]
fn zero_area_stalls_without_building() {
    let mut objects = running(800, 600, 3);
    objects.draw(0);
    objects.pump(FrameEvent::AcquireFailed { code: OUT_OF_DATE });
    for _ in 0..5 {
        assert_eq!(objects.pump(report(0, 0)), FrameAction::AwaitSize);
        assert_eq!(objects.phase(), Phase::RecreateSwapchain { planned: None });
        assert!(objects.plan().is_empty());
        assert!(!objects.is_alive(Resource::Swapchain));
        assert_eq!(objects.draw(1), FrameAction::Survey);
    }
    assert_eq!(objects.pump(report(640, 0)), FrameAction::AwaitSize);
    assert_eq!(objects.pump(report(640, 480)), FrameAction::Build { config: config(640, 480) });
    assert_eq!(objects.pump(built(2)), FrameAction::Rest);
    draw_frame(&mut objects, 3, 1);
}

#[test]
fn reports_out_of_turn_change_nothing() {
    let mut objects = running(800, 600, 3);
    assert_eq!(objects.pump(FrameEvent::Submitted), FrameAction::Rest);
    assert_eq!(objects.pump(FrameEvent::Presented { suboptimal: true }), FrameAction::Rest);
    assert_eq!(objects.pump(FrameEvent::AcquireFailed { code: OUT_OF_DATE }), FrameAction::Rest);
    assert_eq!(objects.pump(report(10, 10)), FrameAction::Rest);
    assert_eq!(objects.pump(built(5)), FrameAction::Rest);
    assert_eq!(objects.phase(), Phase::Idle);
    assert_eq!(objects.image_count(), 3);
    assert_eq!(objects.current_frame(), 0);
    objects.draw(0);
    assert_eq!(objects.draw(1), FrameAction::Rest);
    assert_eq!(objects.phase(), Phase::AcquireImage);
}

#[test]
fn recreation_with_unchanged_size_keeps_format_and_extent() {
    let mut objects = running(800, 600, 3);
    let before = objects.swapchain().unwrap();
    objects.draw(0);
    objects.pump(FrameEvent::AcquireFailed { code: OUT_OF_DATE });
    assert_eq!(objects.pump(report(800, 600)), FrameAction::Build { config: before });
    objects.pump(built(3));
    let after = objects.swapchain().unwrap();
    assert_eq!(after.format, before.format);
    assert_eq!(after.extent, before.extent);
}

#[test]
fn resize_rebuilds_the_swapchain_and_frames_go_on() {
    let mut objects = running(800, 600, 3);
    assert_eq!(objects.swapchain().unwrap().extent, Extent { width: 800, height: 600 });
    for frame in 0..5u32 {
        draw_frame(&mut objects, frame * 16_000, frame % 3);
    }
    let slot = objects.current_frame();
    assert_eq!(objects.draw(80_000), FrameAction::Acquire { slot, timeout: u64::MAX });
    assert_eq!(
        objects.pump(FrameEvent::AcquireFailed { code: OUT_OF_DATE }),
        FrameAction::TearDown
    );
    assert_eq!(objects.plan(), &generation_teardown());
    assert_eq!(objects.pump(report(400, 300)), FrameAction::Build { config: config(400, 300) });
    assert_eq!(objects.plan(), &generation_build());
    assert_eq!(objects.pump(built(3)), FrameAction::Rest);
    assert_eq!(objects.swapchain().unwrap().extent, Extent { width: 400, height: 300 });
    assert_eq!(objects.current_frame(), slot);
    for frame in 0..4u32 {
        draw_frame(&mut objects, frame, frame % 3);
    }
    assert_eq!(objects.phase(), Phase::Idle);
    assert_eq!(objects.exit_status(), 0);
}

#[test]
fn resize_found_on_present_rebuilds_too() {
    let mut objects = running(800, 600, 3);
    objects.draw(0);
    objects.pump(FrameEvent::Acquired { image_index: 0, suboptimal: false });
    objects.pump(FrameEvent::Submitted);
    assert_eq!(
        objects.pump(FrameEvent::PresentFailed { code: OUT_OF_DATE }),
        FrameAction::TearDown
    );
    assert_eq!(objects.pump(report(400, 300)), FrameAction::Build { config: config(400, 300) });
    assert_eq!(objects.pump(built(4)), FrameAction::Rest);
    assert_eq!(objects.image_count(), 4);
    draw_frame(&mut objects, 1, 3);
    assert_eq!(objects.current_frame(), 0);
}

#[test]
fn release_destroys_everything_in_reverse_order() {
    let mut objects = running(800, 600, 3);
    draw_frame(&mut objects, 0, 0);
    objects.release();
    assert_eq!(
        objects.plan(),
        &vec![
            Resource::SyncObjects,
            Resource::CommandBuffers,
            Resource::DescriptorSets,
            Resource::DescriptorPool,
            Resource::UniformBuffers,
            Resource::IndexBuffer,
            Resource::VertexBuffer,
            Resource::CommandPool,
            Resource::Framebuffers,
            Resource::Pipeline,
            Resource::PipelineLayout,
            Resource::DescriptorSetLayout,
            Resource::RenderPass,
            Resource::ImageViews,
            Resource::Swapchain,
            Resource::Device,
            Resource::Surface,
            Resource::DebugMessenger,
            Resource::Instance,
        ]
    );
    assert_eq!(objects.phase(), Phase::Released);
    assert_eq!(objects.exit_status(), 0);
    assert!(!objects.is_pending(0));
    assert_eq!(objects.draw(0), FrameAction::Rest);
    assert_eq!(objects.pump(FrameEvent::Submitted), FrameAction::Rest);
}

#[test]
fn release_of_a_compute_engine_destroys_the_instance() {
    let mut objects = VulkanApiObjects::init_compute();
    objects.release();
    assert_eq!(objects.plan(), &vec![Resource::Instance]);
}

#[test]
fn windows_are_opened_and_closed() {
    let mut objects = VulkanApiObjects::init(1, &validation());
    assert!(objects.open_window(2));
    assert!(!objects.open_window(2));
    assert_eq!(objects.windows().len(), 2);
    assert_eq!(objects.windows().get(0), Some(1));
    assert_eq!(objects.windows().get(1), Some(2));
    assert_eq!(objects.windows().get(2), None);
    assert!(objects.close_window(1));
    assert!(!objects.close_window(1));
    assert_eq!(objects.windows().get(0), Some(2));
}

#[test]
fn what_was_built_must_come_one_per_image() {
    let even = Generation {
        images: 3,
        image_views: 3,
        frame_targets: 3,
        uniform_buffers: 3,
        descriptor_sets: 3,
        command_buffers: 3,
    };
    assert!(even.is_one_per_image());
    let uneven = [
        Generation { image_views: 2, ..even },
        Generation { frame_targets: 4, ..even },
        Generation { uniform_buffers: 1, ..even },
        Generation { descriptor_sets: 0, ..even },
        Generation { command_buffers: 2, ..even },
    ];
    for counts in uneven {
        assert!(!counts.is_one_per_image());
        let mut objects = VulkanApiObjects::init(1, &validation());
        objects.pump(report(800, 600));
        assert_eq!(
            objects.pump(FrameEvent::Built { built: counts }),
            FrameAction::Abort { failure: Failure::CountMismatch }
        );
        assert_eq!(objects.phase(), Phase::Failed { failure: Failure::CountMismatch });
        assert_eq!(objects.swapchain(), None);
    }
    let mut objects = VulkanApiObjects::init(1, &validation());
    objects.pump(report(800, 600));
    assert_eq!(objects.pump(FrameEvent::Built { built: even }), FrameAction::Rest);
    assert_eq!(objects.image_count(), 3);
    assert_eq!(
        Failure::CountMismatch.describe(),
        "The objects of the swapchain do not come one per image"
    );
}

#[test]
fn slot_usage_is_strictly_sequential_under_a_moody_driver() {
    let mut objects = running(800, 600, 3);
    let mut in_flight = [false; MAX_FRAMES_IN_FLIGHT];
    let mut seed: u32 = 12345;
    let mut submissions = 0;
    let mut recreations = 0;
    for frame in 0..500u32 {
        let mut action = objects.draw(frame);
        loop {
            seed = seed.wrapping_mul(1_664_525).wrapping_add(1_013_904_223);
            let mood = (seed >> 16) % 10;
            let event = match action {
                FrameAction::Rest | FrameAction::AwaitSize => break,
                FrameAction::Acquire { slot, timeout } => {
                    assert_eq!(timeout, u64::MAX);
                    in_flight[slot] = false;
                    if mood == 0 {
                        FrameEvent::AcquireFailed { code: OUT_OF_DATE }
                    } else {
                        FrameEvent::Acquired { image_index: seed % 3, suboptimal: mood == 1 }
                    }
                }
                FrameAction::Submit { slot, image_index, .. } => {
                    assert!(!in_flight[slot], "slot {} is used by two frames at once", slot);
                    assert!(image_index < objects.image_count());
                    in_flight[slot] = true;
                    submissions += 1;
                    FrameEvent::Submitted
                }
                FrameAction::Present { slot, .. } => {
                    assert!(in_flight[slot]);
                    match mood {
                        0 => FrameEvent::PresentFailed { code: OUT_OF_DATE },
                        1 => FrameEvent::PresentFailed { code: SUBOPTIMAL },
                        2 => FrameEvent::Presented { suboptimal: true },
                        _ => FrameEvent::Presented { suboptimal: false },
                    }
                }
                FrameAction::TearDown => {
                    in_flight = [false; MAX_FRAMES_IN_FLIGHT];
                    recreations += 1;
                    assert_eq!(objects.plan(), &generation_teardown());
                    if mood < 3 { report(0, 0) } else { report(640 + mood, 480) }
                }
                FrameAction::Survey => {
                    if mood < 3 { report(0, 0) } else { report(640 + mood, 480) }
                }
                FrameAction::Build { config } => {
                    assert!(!config.extent.is_empty());
                    assert_eq!(objects.plan(), &generation_build());
                    built(3)
                }
                FrameAction::Abort { failure } => panic!("the loop stopped: {:?}", failure),
            };
            action = objects.pump(event);
        }
        for slot in 0..MAX_FRAMES_IN_FLIGHT {
            assert_eq!(objects.is_pending(slot), in_flight[slot]);
        }
    }
    assert!(submissions > 100);
    assert!(recreations > 10);
}
