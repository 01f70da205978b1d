//! What is derived from the images of a swapchain, one for one: an image view
//! per image, a frame target per view, and a list of recorded commands per
//! frame target. Objects are named by their handles.

use crate::constants::INDICES_DATA;
use crate::swapchain::Extent;
use vstd::prelude::*;

verus! {

/// The view to create for one image of the swapchain.
#[derive(Clone, Copy, PartialEq, Eq, Structural, Debug)]
pub struct ImageViewRequest {
    pub image: u64,
    pub format: i32,
}

/// The frame target to create for one image view: a framebuffer of one layer
/// that binds the render pass to the view.
#[derive(Clone, Copy, PartialEq, Eq, Structural, Debug)]
pub struct FrameTargetRequest {
    pub render_pass: u64,
    pub view: u64,
    pub extent: Extent,
}

/// One recorded command.
#[derive(Clone, Copy, PartialEq, Eq, Structural, Debug)]
pub enum Command {
    /// Begin the render pass on a frame target, clearing it, over the whole
    /// extent.
    BeginRenderPass { render_pass: u64, frame_target: u64, extent: Extent },
    BindPipeline { pipeline: u64 },
    BindVertexBuffer { buffer: u64 },
    BindIndexBuffer { buffer: u64 },
    BindDescriptorSet { pipeline_layout: u64, descriptor_set: u64 },
    DrawIndexed { index_count: u32 },
    EndRenderPass,
}

/// The number of indices that one draw takes.
pub open spec fn index_count() -> u32 {
    6
}

/// The views for the images of a swapchain: one per image, in the same order,
/// each in the format of the swapchain.
pub open spec fn views_for(images: Seq<u64>, format: i32) -> Seq<ImageViewRequest> {
    Seq::new(images.len(), |i: int| ImageViewRequest { image: images[i], format })
}

/// The frame targets for the views of a swapchain: one per view, in the same
/// order, each over the whole extent.
pub open spec fn targets_for(render_pass: u64, image_views: Seq<u64>, extent: Extent) -> Seq<
    FrameTargetRequest,
> {
    Seq::new(
        image_views.len(),
        |i: int| FrameTargetRequest { render_pass, view: image_views[i], extent },
    )
}

/// The commands that draw into one frame target with one descriptor set.
pub open spec fn commands_for(
    pipeline: u64,
    frame_target: u64,
    render_pass: u64,
    extent: Extent,
    vertex_buffer: u64,
    index_buffer: u64,
    pipeline_layout: u64,
    descriptor_set: u64,
) -> Seq<Command> {
    seq![
        Command::BeginRenderPass { render_pass, frame_target, extent },
        Command::BindPipeline { pipeline },
        Command::BindVertexBuffer { buffer: vertex_buffer },
        Command::BindIndexBuffer { buffer: index_buffer },
        Command::BindDescriptorSet { pipeline_layout, descriptor_set },
        Command::DrawIndexed { index_count: index_count() },
        Command::EndRenderPass,
    ]
}

/// Plans the image views of a swapchain.
pub fn image_views(images: &Vec<u64>, format: i32) -> (requests: Vec<ImageViewRequest>)
    ensures
        requests@ == views_for(images@, format),
{
    let mut requests: Vec<ImageViewRequest> = Vec::new();
    let mut i: usize = 0;
    while i < images.len()
        invariant
            i <= images@.len(),
            requests@.len() == i,
            forall|j: int|
                0 <= j < i ==> requests@[j] == (ImageViewRequest { image: images@[j], format }),
        decreases images@.len() - i,
    {
        requests.push(ImageViewRequest { image: images[i], format });
        i = i + 1;
    }
    assert(requests@ =~= views_for(images@, format));
    requests
}

/// Plans the frame targets of a swapchain.
pub fn frame_targets(render_pass: u64, image_views: &Vec<u64>, extent: Extent) -> (requests: Vec<
    FrameTargetRequest,
>)
    ensures
        requests@ == targets_for(render_pass, image_views@, extent),
{
    let mut requests: Vec<FrameTargetRequest> = Vec::new();
    let mut i: usize = 0;
    while i < image_views.len()
        invariant
            i <= image_views@.len(),
            requests@.len() == i,
            forall|j: int|
                0 <= j < i ==> requests@[j] == (FrameTargetRequest {
                    render_pass,
                    view: image_views@[j],
                    extent,
                }),
        decreases image_views@.len() - i,
    {
        requests.push(FrameTargetRequest { render_pass, view: image_views[i], extent });
        i = i + 1;
    }
    assert(requests@ =~= targets_for(render_pass, image_views@, extent));
    requests
}

/// Records the commands for every frame target: begin the render pass, bind
/// the pipeline, the vertex and index buffers and the descriptor set that
/// belongs to the same image, draw, end the render pass.
///
/// There must be one descriptor set per frame target.
pub fn record(
    pipeline: u64,
    frame_targets: &Vec<u64>,
    render_pass: u64,
    extent: Extent,
    vertex_buffer: u64,
    index_buffer: u64,
    pipeline_layout: u64,
    descriptor_sets: &Vec<u64>,
) -> (buffers: Vec<Vec<Command>>)
    requires
        descriptor_sets@.len() == frame_targets@.len(),
    ensures
        buffers@.len() == frame_targets@.len(),
        forall|i: int|
            0 <= i < buffers@.len() ==> (#[trigger] buffers@[i])@ == commands_for(
                pipeline,
                frame_targets@[i],
                render_pass,
                extent,
                vertex_buffer,
                index_buffer,
                pipeline_layout,
                descriptor_sets@[i],
            ),
{
    let mut buffers: Vec<Vec<Command>> = Vec::new();
    let mut i: usize = 0;
    while i < frame_targets.len()
        invariant
            i <= frame_targets@.len(),
            descriptor_sets@.len() == frame_targets@.len(),
            buffers@.len() == i,
            forall|j: int|
                0 <= j < i ==> (#[trigger] buffers@[j])@ == commands_for(
                    pipeline,
                    frame_targets@[j],
                    render_pass,
                    extent,
                    vertex_buffer,
                    index_buffer,
                    pipeline_layout,
                    descriptor_sets@[j],
                ),
        decreases frame_targets@.len() - i,
    {
        let mut commands: Vec<Command> = Vec::new();
        commands.push(
            Command::BeginRenderPass { render_pass, frame_target: frame_targets[i], extent },
        );
        commands.push(Command::BindPipeline { pipeline });
        commands.push(Command::BindVertexBuffer { buffer: vertex_buffer });
        commands.push(Command::BindIndexBuffer { buffer: index_buffer });
        commands.push(
            Command::BindDescriptorSet { pipeline_layout, descriptor_set: descriptor_sets[i] },
        );
        commands.push(Command::DrawIndexed { index_count: INDICES_DATA.len() as u32 });
        commands.push(Command::EndRenderPass);
        assert(commands@ =~= commands_for(
            pipeline,
            frame_targets@[i as int],
            render_pass,
            extent,
            vertex_buffer,
            index_buffer,
            pipeline_layout,
            descriptor_sets@[i as int],
        ));
        buffers.push(commands);
        i = i + 1;
    }
    buffers
}

/// Everything derived from the images of a swapchain comes one per image and
/// in the order of the images: the `i`-th view is a view of the `i`-th image,
/// the `i`-th frame target binds the `i`-th view.
pub proof fn lemma_one_per_image(
    images: Seq<u64>,
    format: i32,
    render_pass: u64,
    image_views: Seq<u64>,
    extent: Extent,
)
    requires
        image_views.len() == views_for(images, format).len(),
    ensures
        views_for(images, format).len() == images.len(),
        targets_for(render_pass, image_views, extent).len() == images.len(),
        forall|i: int|
            0 <= i < images.len() ==> (#[trigger] views_for(images, format)[i]).image == images[i]
                && views_for(images, format)[i].format == format,
        forall|i: int|
            0 <= i < images.len() ==> (#[trigger] targets_for(
                render_pass,
                image_views,
                extent,
            )[i]).view == image_views[i] && targets_for(render_pass, image_views, extent)[i].extent
                == extent,
{
}

} // verus!
