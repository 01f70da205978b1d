//! The numbers by which the driver names result codes, formats, present modes
//! and flag bits.
//!
//! Each number is stated once, as a spec function. At run time it is read from
//! the `ash` bindings by a function whose contract is taken on trust: the
//! function calls `as_raw` on one constant of `ash`, and its contract claims
//! the number that `ash` defines that constant to be.

use vstd::prelude::*;

verus! {

/// The result code for a swapchain that no longer matches its surface and can no
/// longer be presented to.
pub open spec fn out_of_date_code() -> i32 {
    -1_000_001_004i32
}

/// The result code for a swapchain that can still be presented to but no longer
/// matches its surface exactly.
pub open spec fn suboptimal_code() -> i32 {
    1_000_001_003i32
}

/// The present mode that replaces a queued image by a newer one.
pub open spec fn mailbox_mode() -> i32 {
    1i32
}

/// The present mode that queues images and shows one per vertical blank.
pub open spec fn fifo_mode() -> i32 {
    2i32
}

/// The format with 8 bits for each of blue, green, red and alpha, sRGB encoded.
pub open spec fn bgra8_srgb_format() -> i32 {
    50i32
}

/// The non-linear sRGB colour space.
pub open spec fn srgb_nonlinear_space() -> i32 {
    0i32
}

/// The pipeline stage at which colour attachments are written.
pub open spec fn color_attachment_output_stage() -> u32 {
    0x400u32
}

/// The severity bit of a diagnostic message of the most detailed kind.
pub open spec fn severity_verbose_bit() -> u32 {
    0x1u32
}

/// The severity bit of an informational message.
pub open spec fn severity_info_bit() -> u32 {
    0x10u32
}

/// The severity bit of a warning.
pub open spec fn severity_warning_bit() -> u32 {
    0x100u32
}

/// The severity bit of an error.
pub open spec fn severity_error_bit() -> u32 {
    0x1000u32
}

/// The type bit of a message about something general.
pub open spec fn type_general_bit() -> u32 {
    0x1u32
}

/// The type bit of a message about a use of the API that is not valid.
pub open spec fn type_validation_bit() -> u32 {
    0x2u32
}

/// The type bit of a message about a use of the API that is slow.
pub open spec fn type_performance_bit() -> u32 {
    0x4u32
}

/// The capability bit of a queue family that takes graphics commands.
pub open spec fn queue_graphics_bit() -> u32 {
    0x1u32
}

/// The usage bit of a buffer that data is copied from.
pub open spec fn usage_transfer_src_bit() -> u32 {
    0x1u32
}

/// The usage bit of a buffer that data is copied to.
pub open spec fn usage_transfer_dst_bit() -> u32 {
    0x2u32
}

/// The usage bit of a buffer that holds uniform data.
pub open spec fn usage_uniform_buffer_bit() -> u32 {
    0x10u32
}

/// The usage bit of a buffer that holds indices.
pub open spec fn usage_index_buffer_bit() -> u32 {
    0x40u32
}

/// The usage bit of a buffer that holds vertices.
pub open spec fn usage_vertex_buffer_bit() -> u32 {
    0x80u32
}

/// The property bit of memory that is local to the device.
pub open spec fn memory_device_local_bit() -> u32 {
    0x1u32
}

/// The property bit of memory that the host can map.
pub open spec fn memory_host_visible_bit() -> u32 {
    0x2u32
}

/// The property bit of memory that needs no flushing after the host has
/// written to it.
pub open spec fn memory_host_coherent_bit() -> u32 {
    0x4u32
}

/// Calls `as_raw` on `ERROR_OUT_OF_DATE_KHR` of `ash::vk::Result`. Trusted: the call
/// returns the number that `ash` defines the constant to be, which is
/// [`out_of_date_code`].
#[verifier::external_body]
pub(crate) fn error_out_of_date_khr() -> (code: i32)
    ensures
        code == out_of_date_code(),
{
    ash::vk::Result::ERROR_OUT_OF_DATE_KHR.as_raw()
}

/// Calls `as_raw` on `SUBOPTIMAL_KHR` of `ash::vk::Result`. Trusted: the call
/// returns the number that `ash` defines the constant to be, which is
/// [`suboptimal_code`].
#[verifier::external_body]
pub(crate) fn suboptimal_khr() -> (code: i32)
    ensures
        code == suboptimal_code(),
{
    ash::vk::Result::SUBOPTIMAL_KHR.as_raw()
}

/// Calls `as_raw` on `MAILBOX` of `ash::vk::PresentModeKHR`. Trusted: the call
/// returns the number that `ash` defines the constant to be, which is
/// [`mailbox_mode`].
#[verifier::external_body]
pub(crate) fn present_mode_mailbox() -> (mode: i32)
    ensures
        mode == mailbox_mode(),
{
    ash::vk::PresentModeKHR::MAILBOX.as_raw()
}

/// Calls `as_raw` on `FIFO` of `ash::vk::PresentModeKHR`. Trusted: the call
/// returns the number that `ash` defines the constant to be, which is
/// [`fifo_mode`].
#[verifier::external_body]
pub(crate) fn present_mode_fifo() -> (mode: i32)
    ensures
        mode == fifo_mode(),
{
    ash::vk::PresentModeKHR::FIFO.as_raw()
}

/// Calls `as_raw` on `B8G8R8A8_SRGB` of `ash::vk::Format`. Trusted: the call
/// returns the number that `ash` defines the constant to be, which is
/// [`bgra8_srgb_format`].
#[verifier::external_body]
pub(crate) fn format_b8g8r8a8_srgb() -> (format: i32)
    ensures
        format == bgra8_srgb_format(),
{
    ash::vk::Format::B8G8R8A8_SRGB.as_raw()
}

/// Calls `as_raw` on `SRGB_NONLINEAR` of `ash::vk::ColorSpaceKHR`. Trusted: the call
/// returns the number that `ash` defines the constant to be, which is
/// [`srgb_nonlinear_space`].
#[verifier::external_body]
pub(crate) fn color_space_srgb_nonlinear() -> (space: i32)
    ensures
        space == srgb_nonlinear_space(),
{
    ash::vk::ColorSpaceKHR::SRGB_NONLINEAR.as_raw()
}

/// Calls `as_raw` on `COLOR_ATTACHMENT_OUTPUT` of `ash::vk::PipelineStageFlags`. Trusted: the call
/// returns the number that `ash` defines the constant to be, which is
/// [`color_attachment_output_stage`].
#[verifier::external_body]
pub(crate) fn stage_color_attachment_output() -> (bits: u32)
    ensures
        bits == color_attachment_output_stage(),
{
    ash::vk::PipelineStageFlags::COLOR_ATTACHMENT_OUTPUT.as_raw()
}

/// Calls `as_raw` on `VERBOSE` of `ash::vk::DebugUtilsMessageSeverityFlagsEXT`. Trusted: the call
/// returns the number that `ash` defines the constant to be, which is
/// [`severity_verbose_bit`].
#[verifier::external_body]
pub(crate) fn severity_verbose() -> (bits: u32)
    ensures
        bits == severity_verbose_bit(),
{
    ash::vk::DebugUtilsMessageSeverityFlagsEXT::VERBOSE.as_raw()
}

/// Calls `as_raw` on `INFO` of `ash::vk::DebugUtilsMessageSeverityFlagsEXT`. Trusted: the call
/// returns the number that `ash` defines the constant to be, which is
/// [`severity_info_bit`].
#[verifier::external_body]
pub(crate) fn severity_info() -> (bits: u32)
    ensures
        bits == severity_info_bit(),
{
    ash::vk::DebugUtilsMessageSeverityFlagsEXT::INFO.as_raw()
}

/// Calls `as_raw` on `WARNING` of `ash::vk::DebugUtilsMessageSeverityFlagsEXT`. Trusted: the call
/// returns the number that `ash` defines the constant to be, which is
/// [`severity_warning_bit`].
#[verifier::external_body]
pub(crate) fn severity_warning() -> (bits: u32)
    ensures
        bits == severity_warning_bit(),
{
    ash::vk::DebugUtilsMessageSeverityFlagsEXT::WARNING.as_raw()
}

/// Calls `as_raw` on `ERROR` of `ash::vk::DebugUtilsMessageSeverityFlagsEXT`. Trusted: the call
/// returns the number that `ash` defines the constant to be, which is
/// [`severity_error_bit`].
#[verifier::external_body]
pub(crate) fn severity_error() -> (bits: u32)
    ensures
        bits == severity_error_bit(),
{
    ash::vk::DebugUtilsMessageSeverityFlagsEXT::ERROR.as_raw()
}

/// Calls `as_raw` on `GENERAL` of `ash::vk::DebugUtilsMessageTypeFlagsEXT`. Trusted: the call
/// returns the number that `ash` defines the constant to be, which is
/// [`type_general_bit`].
#[verifier::external_body]
pub(crate) fn type_general() -> (bits: u32)
    ensures
        bits == type_general_bit(),
{
    ash::vk::DebugUtilsMessageTypeFlagsEXT::GENERAL.as_raw()
}

/// Calls `as_raw` on `VALIDATION` of `ash::vk::DebugUtilsMessageTypeFlagsEXT`. Trusted: the call
/// returns the number that `ash` defines the constant to be, which is
/// [`type_validation_bit`].
#[verifier::external_body]
pub(crate) fn type_validation() -> (bits: u32)
    ensures
        bits == type_validation_bit(),
{
    ash::vk::DebugUtilsMessageTypeFlagsEXT::VALIDATION.as_raw()
}

/// Calls `as_raw` on `PERFORMANCE` of `ash::vk::DebugUtilsMessageTypeFlagsEXT`. Trusted: the call
/// returns the number that `ash` defines the constant to be, which is
/// [`type_performance_bit`].
#[verifier::external_body]
pub(crate) fn type_performance() -> (bits: u32)
    ensures
        bits == type_performance_bit(),
{
    ash::vk::DebugUtilsMessageTypeFlagsEXT::PERFORMANCE.as_raw()
}

/// Calls `as_raw` on `GRAPHICS` of `ash::vk::QueueFlags`. Trusted: the call
/// returns the number that `ash` defines the constant to be, which is
/// [`queue_graphics_bit`].
#[verifier::external_body]
pub(crate) fn queue_graphics() -> (bits: u32)
    ensures
        bits == queue_graphics_bit(),
{
    ash::vk::QueueFlags::GRAPHICS.as_raw()
}

/// Calls `as_raw` on `TRANSFER_SRC` of `ash::vk::BufferUsageFlags`. Trusted: the call
/// returns the number that `ash` defines the constant to be, which is
/// [`usage_transfer_src_bit`].
#[verifier::external_body]
pub(crate) fn usage_transfer_src() -> (bits: u32)
    ensures
        bits == usage_transfer_src_bit(),
{
    ash::vk::BufferUsageFlags::TRANSFER_SRC.as_raw()
}

/// Calls `as_raw` on `TRANSFER_DST` of `ash::vk::BufferUsageFlags`. Trusted: the call
/// returns the number that `ash` defines the constant to be, which is
/// [`usage_transfer_dst_bit`].
#[verifier::external_body]
pub(crate) fn usage_transfer_dst() -> (bits: u32)
    ensures
        bits == usage_transfer_dst_bit(),
{
    ash::vk::BufferUsageFlags::TRANSFER_DST.as_raw()
}

/// Calls `as_raw` on `UNIFORM_BUFFER` of `ash::vk::BufferUsageFlags`. Trusted: the call
/// returns the number that `ash` defines the constant to be, which is
/// [`usage_uniform_buffer_bit`].
#[verifier::external_body]
pub(crate) fn usage_uniform_buffer() -> (bits: u32)
    ensures
        bits == usage_uniform_buffer_bit(),
{
    ash::vk::BufferUsageFlags::UNIFORM_BUFFER.as_raw()
}

/// Calls `as_raw` on `INDEX_BUFFER` of `ash::vk::BufferUsageFlags`. Trusted: the call
/// returns the number that `ash` defines the constant to be, which is
/// [`usage_index_buffer_bit`].
#[verifier::external_body]
pub(crate) fn usage_index_buffer() -> (bits: u32)
    ensures
        bits == usage_index_buffer_bit(),
{
    ash::vk::BufferUsageFlags::INDEX_BUFFER.as_raw()
}

/// Calls `as_raw` on `VERTEX_BUFFER` of `ash::vk::BufferUsageFlags`. Trusted: the call
/// returns the number that `ash` defines the constant to be, which is
/// [`usage_vertex_buffer_bit`].
#[verifier::external_body]
pub(crate) fn usage_vertex_buffer() -> (bits: u32)
    ensures
        bits == usage_vertex_buffer_bit(),
{
    ash::vk::BufferUsageFlags::VERTEX_BUFFER.as_raw()
}

/// Calls `as_raw` on `DEVICE_LOCAL` of `ash::vk::MemoryPropertyFlags`. Trusted: the call
/// returns the number that `ash` defines the constant to be, which is
/// [`memory_device_local_bit`].
#[verifier::external_body]
pub(crate) fn memory_device_local() -> (bits: u32)
    ensures
        bits == memory_device_local_bit(),
{
    ash::vk::MemoryPropertyFlags::DEVICE_LOCAL.as_raw()
}

/// Calls `as_raw` on `HOST_VISIBLE` of `ash::vk::MemoryPropertyFlags`. Trusted: the call
/// returns the number that `ash` defines the constant to be, which is
/// [`memory_host_visible_bit`].
#[verifier::external_body]
pub(crate) fn memory_host_visible() -> (bits: u32)
    ensures
        bits == memory_host_visible_bit(),
{
    ash::vk::MemoryPropertyFlags::HOST_VISIBLE.as_raw()
}

/// Calls `as_raw` on `HOST_COHERENT` of `ash::vk::MemoryPropertyFlags`. Trusted: the call
/// returns the number that `ash` defines the constant to be, which is
/// [`memory_host_coherent_bit`].
#[verifier::external_body]
pub(crate) fn memory_host_coherent() -> (bits: u32)
    ensures
        bits == memory_host_coherent_bit(),
{
    ash::vk::MemoryPropertyFlags::HOST_COHERENT.as_raw()
}

} // verus!
