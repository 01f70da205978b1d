use frame_pacing::recorder::{
    frame_targets, image_views, record, Command, FrameTargetRequest, ImageViewRequest,
};
use frame_pacing::pipeline::{
    create, fits, shader_words, AttachmentRequest, ImageLayout, LoadOp, PipelineSetRequest,
    StoreOp,
};
use frame_pacing::swapchain::{Extent, SurfaceFormat, SwapchainConfig};
use frame_pacing::sync::FrameSync;

#[test]
fn one_view_per_image_and_one_target_per_view() {
    let images = vec![11, 12, 13];
    let views = image_views(&images, 50);
    assert_eq!(views.len(), images.len());
    assert_eq!(
        views,
        vec![
            ImageViewRequest { image: 11, format: 50 },
            ImageViewRequest { image: 12, format: 50 },
            ImageViewRequest { image: 13, format: 50 },
        ]
    );
    let extent = Extent { width: 800, height: 600 };
    let view_handles = vec![21, 22, 23];
    let targets = frame_targets(7, &view_handles, extent);
    assert_eq!(targets.len(), view_handles.len());
    assert_eq!(
        targets,
        vec![
            FrameTargetRequest { render_pass: 7, view: 21, extent },
            FrameTargetRequest { render_pass: 7, view: 22, extent },
            FrameTargetRequest { render_pass: 7, view: 23, extent },
        ]
    );
    assert!(image_views(&vec![], 50).is_empty());
    assert!(frame_targets(7, &vec![], extent).is_empty());
}

#[test]
fn commands_are_recorded_per_frame_target() {
    let extent = Extent { width: 400, height: 300 };
    let buffers = record(1, &vec![31, 32], 2, extent, 3, 4, 5, &vec![41, 42]);
    assert_eq!(buffers.len(), 2);
    for (i, commands) in buffers.iter().enumerate() {
        assert_eq!(
            commands,
            &vec![
                Command::BeginRenderPass { render_pass: 2, frame_target: 31 + i as u64, extent },
                Command::BindPipeline { pipeline: 1 },
                Command::BindVertexBuffer { buffer: 3 },
                Command::BindIndexBuffer { buffer: 4 },
                Command::BindDescriptorSet { pipeline_layout: 5, descriptor_set: 41 + i as u64 },
                Command::DrawIndexed { index_count: 6 },
                Command::EndRenderPass,
            ]
        );
    }
    assert!(record(1, &vec![], 2, extent, 3, 4, 5, &vec![]).is_empty());
}

#[test]
fn the_ring_starts_signalled_at_slot_zero() {
    let ring = FrameSync::new();
    assert_eq!(ring.current_frame(), 0);
    assert!(!ring.is_pending(0));
    assert!(!ring.is_pending(1));
    assert!(!ring.is_pending(2));
}

#[test]
fn the_ring_advances_round_robin() {
    let mut ring = FrameSync::new();
    ring.advance();
    assert_eq!(ring.current_frame(), 1);
    ring.advance();
    assert_eq!(ring.current_frame(), 0);
    ring.advance();
    assert_eq!(ring.current_frame(), 1);
}

#[test]
fn fences_are_pending_from_submit_to_wait() {
    let mut ring = FrameSync::new();
    ring.submit();
    assert!(ring.is_pending(0));
    assert!(!ring.is_pending(1));
    ring.advance();
    ring.submit();
    assert!(ring.is_pending(0));
    assert!(ring.is_pending(1));
    ring.advance();
    ring.retire();
    assert!(!ring.is_pending(0));
    assert!(ring.is_pending(1));
    ring.drain();
    assert!(!ring.is_pending(0));
    assert!(!ring.is_pending(1));
    assert_eq!(ring.current_frame(), 0);
}

#[test]
fn the_pipeline_set_clears_and_hands_over_for_presentation() {
    let extent = Extent { width: 800, height: 600 };
    assert_eq!(
        create(50, extent, Some(9)),
        PipelineSetRequest {
            attachment: AttachmentRequest {
                format: 50,
                load: LoadOp::Clear,
                store: StoreOp::Store,
                initial_layout: ImageLayout::Undefined,
                final_layout: ImageLayout::PresentSource,
            },
            descriptor_layout: Some(9),
            viewport: extent,
            scissor: extent,
        }
    );
    assert_eq!(create(44, extent, None).descriptor_layout, None);
}

#[test]
fn the_pipeline_set_fits_one_format_and_extent_only() {
    let extent = Extent { width: 800, height: 600 };
    let config = SwapchainConfig {
        format: SurfaceFormat { format: 50, color_space: 0 },
        present_mode: 2,
        extent,
        min_image_count: 3,
    };
    let request = create(50, extent, None);
    assert!(fits(&request, &config));
    assert!(fits(&request, &SwapchainConfig { present_mode: 1, min_image_count: 2, ..config }));
    let resized = SwapchainConfig { extent: Extent { width: 400, height: 300 }, ..config };
    assert!(!fits(&request, &resized));
    let reformatted =
        SwapchainConfig { format: SurfaceFormat { format: 44, color_space: 0 }, ..config };
    assert!(!fits(&request, &reformatted));
}

#[test]
fn shader_bytes_spell_little_endian_words() {
    let bytes = vec![0x03, 0x02, 0x23, 0x07, 0x00, 0x00, 0x01, 0x00, 0xff, 0xff, 0xff, 0xff];
    assert_eq!(shader_words(&bytes), Some(vec![0x0723_0203, 0x0001_0000, 0xffff_ffff]));
    assert_eq!(shader_words(&vec![]), Some(vec![]));
    assert_eq!(shader_words(&vec![1, 0, 0, 0]), Some(vec![1]));
    assert_eq!(shader_words(&vec![0, 0, 0, 1]), Some(vec![0x0100_0000]));
}

#[test]
fn shader_bytes_must_make_up_whole_words() {
    assert_eq!(shader_words(&vec![1]), None);
    assert_eq!(shader_words(&vec![1, 2, 3]), None);
    assert_eq!(shader_words(&vec![1, 2, 3, 4, 5]), None);
}
