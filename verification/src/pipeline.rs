//! What a pipeline set is built with: the render pass, and the pipeline that
//! draws within it.
//!
//! A pipeline set is compiled against one format and one extent. Neither can
//! change afterwards, so a swapchain of another format or size needs a new
//! set.

use crate::swapchain::{Extent, SwapchainConfig};
use vstd::prelude::*;

verus! {

/// What happens to an attachment when the render pass begins.
#[derive(Clone, Copy, PartialEq, Eq, Structural, Debug)]
pub enum LoadOp {
    Load,
    Clear,
    DontCare,
}

/// What happens to an attachment when the render pass ends.
#[derive(Clone, Copy, PartialEq, Eq, Structural, Debug)]
pub enum StoreOp {
    Store,
    DontCare,
}

/// The layout an image is in.
#[derive(Clone, Copy, PartialEq, Eq, Structural, Debug)]
pub enum ImageLayout {
    Undefined,
    ColorAttachment,
    PresentSource,
}

/// The one colour attachment of the render pass.
#[derive(Clone, Copy, PartialEq, Eq, Structural, Debug)]
pub struct AttachmentRequest {
    pub format: i32,
    pub load: LoadOp,
    pub store: StoreOp,
    pub initial_layout: ImageLayout,
    pub final_layout: ImageLayout,
}

/// What a pipeline set is created with.
#[derive(Clone, Copy, PartialEq, Eq, Structural, Debug)]
pub struct PipelineSetRequest {
    /// The colour attachment of the render pass.
    pub attachment: AttachmentRequest,
    /// The descriptor set layout of the pipeline layout, where there is one.
    pub descriptor_layout: Option<u64>,
    /// The viewport of the pipeline, from the origin.
    pub viewport: Extent,
    /// The scissor rectangle of the pipeline, from the origin.
    pub scissor: Extent,
}

/// The pipeline set for a render target of the given format and extent: the
/// attachment is cleared when the pass begins and left ready for presentation
/// when it ends, and viewport and scissor cover the whole extent.
pub open spec fn pipeline_set_for(format: i32, extent: Extent, descriptor_layout: Option<u64>)
    -> PipelineSetRequest {
    PipelineSetRequest {
        attachment: AttachmentRequest {
            format,
            load: LoadOp::Clear,
            store: StoreOp::Store,
            initial_layout: ImageLayout::Undefined,
            final_layout: ImageLayout::PresentSource,
        },
        descriptor_layout,
        viewport: extent,
        scissor: extent,
    }
}

/// Plans the pipeline set for a render target of the given format and extent.
pub fn create(format: i32, extent: Extent, descriptor_layout: Option<u64>) -> (request:
    PipelineSetRequest)
    ensures
        request == pipeline_set_for(format, extent, descriptor_layout),
{
    PipelineSetRequest {
        attachment: AttachmentRequest {
            format,
            load: LoadOp::Clear,
            store: StoreOp::Store,
            initial_layout: ImageLayout::Undefined,
            final_layout: ImageLayout::PresentSource,
        },
        descriptor_layout,
        viewport: extent,
        scissor: extent,
    }
}

/// Whether a pipeline set built for `built_for` can be used with a swapchain
/// of configuration `config`: only if format and extent are the same.
pub fn fits(built_for: &PipelineSetRequest, config: &SwapchainConfig) -> (b: bool)
    ensures
        b == (built_for.attachment.format == config.format.format && built_for.viewport
            == config.extent && built_for.scissor == config.extent),
{
    built_for.attachment.format == config.format.format && built_for.viewport == config.extent
        && built_for.scissor == config.extent
}

/// The 32-bit word that four bytes spell, the lowest byte first.
pub open spec fn word_of(b0: u8, b1: u8, b2: u8, b3: u8) -> int {
    b0 + 0x100 * b1 + 0x1_0000 * b2 + 0x100_0000 * b3
}

/// The words that shader code is made of, given as bytes: each four bytes
/// spell one word, the lowest byte first. `None` where the bytes do not make
/// up whole words.
pub fn shader_words(bytes: &Vec<u8>) -> (words: Option<Vec<u32>>)
    ensures
        words is Some <==> bytes@.len() % 4 == 0,
        words matches Some(w) ==> w@.len() * 4 == bytes@.len() && forall|i: int|
            0 <= i < w@.len() ==> (#[trigger] w@[i]) == word_of(
                bytes@[4 * i],
                bytes@[4 * i + 1],
                bytes@[4 * i + 2],
                bytes@[4 * i + 3],
            ),
{
    if bytes.len() % 4 != 0 {
        return None;
    }
    let mut words: Vec<u32> = Vec::new();
    let mut at: usize = 0;
    while at < bytes.len()
        invariant
            at <= bytes@.len(),
            at % 4 == 0,
            bytes@.len() % 4 == 0,
            words@.len() * 4 == at,
            forall|i: int|
                0 <= i < words@.len() ==> (#[trigger] words@[i]) == word_of(
                    bytes@[4 * i],
                    bytes@[4 * i + 1],
                    bytes@[4 * i + 2],
                    bytes@[4 * i + 3],
                ),
        decreases bytes@.len() - at,
    {
        let b0: u32 = bytes[at] as u32;
        let b1: u32 = bytes[at + 1] as u32;
        let b2: u32 = bytes[at + 2] as u32;
        let b3: u32 = bytes[at + 3] as u32;
        words.push(b0 + 0x100 * b1 + 0x1_0000 * b2 + 0x100_0000 * b3);
        at = at + 4;
    }
    Some(words)
}

} // verus!
