//! The vocabulary of the render loop: its phases, what the driver reports back
//! to it, and what it asks the embedding program to do next.

use crate::codes::{error_out_of_date_khr, out_of_date_code, suboptimal_code, suboptimal_khr};
use crate::swapchain::{Extent, SurfaceSupport, SwapchainConfig};
use vstd::prelude::*;

verus! {

/// A call into the driver that the loop depends on.
#[derive(Clone, Copy, PartialEq, Eq, Structural, Debug)]
pub enum Operation {
    WaitForFence,
    AcquireImage,
    ResetFence,
    QueueSubmit,
    QueuePresent,
    DeviceWaitIdle,
    Build,
}

impl Operation {
    /// The message that names the failing call.
    pub open spec fn message(self) -> Seq<char> {
        match self {
            Operation::WaitForFence => "Failed to wait for Fence!"@,
            Operation::AcquireImage => "Failed to acquire swap chain image"@,
            Operation::ResetFence => "Failed to reset Fence!"@,
            Operation::QueueSubmit => "Failed to execute queue submit."@,
            Operation::QueuePresent => "Failed to execute queue present"@,
            Operation::DeviceWaitIdle => "Failed to wait on device"@,
            Operation::Build => "Failed to create a GPU object"@,
        }
    }

    /// The message that names the failing call.
    pub fn describe(self) -> (text: &'static str)
        ensures
            text@ == self.message(),
    {
        match self {
            Operation::WaitForFence => "Failed to wait for Fence!",
            Operation::AcquireImage => "Failed to acquire swap chain image",
            Operation::ResetFence => "Failed to reset Fence!",
            Operation::QueueSubmit => "Failed to execute queue submit.",
            Operation::QueuePresent => "Failed to execute queue present",
            Operation::DeviceWaitIdle => "Failed to wait on device",
            Operation::Build => "Failed to create a GPU object",
        }
    }
}

/// Why the loop cannot go on.
#[derive(Clone, Copy, PartialEq, Eq, Structural, Debug)]
pub enum Failure {
    /// A call into the driver failed with a code the loop does not recover
    /// from.
    Driver { operation: Operation, code: i32 },
    /// The surface supports no format.
    NoSurfaceFormat,
    /// The driver handed out an image that the swapchain does not have.
    ImageOutOfRange { image_index: u32 },
    /// The driver built a swapchain without images.
    NoImages,
    /// What was built for the swapchain does not come one per image.
    CountMismatch,
}

impl Failure {
    /// The message that says what went wrong.
    pub open spec fn message(self) -> Seq<char> {
        match self {
            Failure::Driver { operation, .. } => operation.message(),
            Failure::NoSurfaceFormat => "The surface supports no format"@,
            Failure::ImageOutOfRange { .. } => "Acquired an image the swapchain does not have"@,
            Failure::NoImages => "The swapchain has no images"@,
            Failure::CountMismatch => "The objects of the swapchain do not come one per image"@,
        }
    }

    /// The message that says what went wrong.
    pub fn describe(self) -> (text: &'static str)
        ensures
            text@ == self.message(),
    {
        match self {
            Failure::Driver { operation, code: _ } => operation.describe(),
            Failure::NoSurfaceFormat => "The surface supports no format",
            Failure::ImageOutOfRange { image_index: _ } => {
                "Acquired an image the swapchain does not have"
            },
            Failure::NoImages => "The swapchain has no images",
            Failure::CountMismatch => "The objects of the swapchain do not come one per image",
        }
    }
}

/// The longest the loop waits for a fence or an image, in nanoseconds: as long
/// as it takes.
pub const WAIT_FOREVER: u64 = u64::MAX;

/// What an error code of the driver means for the loop.
#[derive(Clone, Copy, PartialEq, Eq, Structural, Debug)]
pub enum Verdict {
    /// The swapchain no longer fits its surface and is to be rebuilt.
    Recreate,
    /// The error is not one the loop recovers from.
    Fatal,
}

/// The meaning of an error code returned when acquiring an image: only "out of
/// date" is recovered from.
pub open spec fn acquire_verdict(code: i32) -> Verdict {
    if code == out_of_date_code() {
        Verdict::Recreate
    } else {
        Verdict::Fatal
    }
}

/// The meaning of an error code returned when presenting an image: "out of
/// date" and "suboptimal" are recovered from.
pub open spec fn present_verdict(code: i32) -> Verdict {
    if code == out_of_date_code() || code == suboptimal_code() {
        Verdict::Recreate
    } else {
        Verdict::Fatal
    }
}

/// Classifies an error code returned when acquiring an image.
pub fn classify_acquire_error(code: i32) -> (verdict: Verdict)
    ensures
        verdict == acquire_verdict(code),
{
    if code == error_out_of_date_khr() {
        Verdict::Recreate
    } else {
        Verdict::Fatal
    }
}

/// Classifies an error code returned when presenting an image.
pub fn classify_present_error(code: i32) -> (verdict: Verdict)
    ensures
        verdict == present_verdict(code),
{
    if code == error_out_of_date_khr() || code == suboptimal_khr() {
        Verdict::Recreate
    } else {
        Verdict::Fatal
    }
}

/// How many objects of each kind were built for a swapchain.
#[derive(Clone, Copy, PartialEq, Eq, Structural, Debug)]
pub struct Generation {
    pub images: u32,
    pub image_views: u32,
    pub frame_targets: u32,
    pub uniform_buffers: u32,
    pub descriptor_sets: u32,
    pub command_buffers: u32,
}

impl Generation {
    /// Everything comes one per image: there are as many image views, frame
    /// targets, uniform buffers, descriptor sets and command buffers as there
    /// are images.
    pub open spec fn one_per_image(self) -> bool {
        &&& self.image_views == self.images
        &&& self.frame_targets == self.images
        &&& self.uniform_buffers == self.images
        &&& self.descriptor_sets == self.images
        &&& self.command_buffers == self.images
    }

    /// Whether everything comes one per image.
    pub fn is_one_per_image(&self) -> (b: bool)
        ensures
            b == self.one_per_image(),
    {
        self.image_views == self.images && self.frame_targets == self.images
            && self.uniform_buffers == self.images && self.descriptor_sets == self.images
            && self.command_buffers == self.images
    }
}

/// Where the loop stands.
#[derive(Clone, Copy, PartialEq, Eq, Structural, Debug)]
pub enum Phase {
    /// Only an instance exists: there is no surface to draw to.
    Compute,
    /// Between two frames.
    Idle,
    /// The fence of the slot has been waited for; the next image is being
    /// acquired.
    AcquireImage,
    /// The commands for the acquired image are being submitted.
    RecordedSubmit { image_index: u32 },
    /// The image is being presented.
    Present { image_index: u32 },
    /// The objects bound to the swapchain are gone. Without `planned`, the
    /// loop waits to hear what the surface supports and how large it is; with
    /// it, the new set is being built.
    RecreateSwapchain { planned: Option<SwapchainConfig> },
    /// The loop has stopped for good.
    Failed { failure: Failure },
    /// Everything has been released.
    Released,
}

/// What the embedding program reports back after doing what it was asked.
#[derive(Clone, Debug)]
pub enum FrameEvent {
    /// An image was acquired. `suboptimal` is set where the driver says that
    /// the swapchain no longer fits the surface exactly.
    Acquired { image_index: u32, suboptimal: bool },
    /// Acquiring an image failed with `code`.
    AcquireFailed { code: i32 },
    /// The commands were submitted.
    Submitted,
    /// The image was queued for presentation.
    Presented { suboptimal: bool },
    /// Presenting the image failed with `code`.
    PresentFailed { code: i32 },
    /// What the surface supports at the moment, and the size of its drawable
    /// area.
    SurfaceReport { support: SurfaceSupport, drawable: Extent },
    /// The swapchain and what is bound to it were built, in the numbers of
    /// `built`.
    Built { built: Generation },
    /// Some other call failed with `code`.
    Fault { operation: Operation, code: i32 },
}

/// What the embedding program is to do next.
#[derive(Clone, Copy, PartialEq, Eq, Structural, Debug)]
pub enum FrameAction {
    /// Nothing, until the next frame is due.
    Rest,
    /// Wait for the fence of `slot`, then acquire the next image, to be
    /// signalled on the image-available semaphore of `slot`; neither for
    /// longer than `timeout` nanoseconds.
    Acquire { slot: usize, timeout: u64 },
    /// Write the uniform data of image `image_index` for the time `elapsed`
    /// (in microseconds); reset the fence of `slot`; submit the commands
    /// recorded for that image, to wait at `wait_stage` for the image-available
    /// semaphore of `slot` and to signal its render-finished semaphore and its
    /// fence.
    Submit { slot: usize, image_index: u32, elapsed: u32, wait_stage: u32 },
    /// Present image `image_index` once the render-finished semaphore of
    /// `slot` is signalled.
    Present { slot: usize, image_index: u32 },
    /// Wait until the device is idle, destroy the objects bound to the
    /// swapchain in the order of the plan, then report the surface.
    TearDown,
    /// Report what the surface supports and how large it is.
    Survey,
    /// The drawable area is empty: create nothing, and report the surface
    /// again once the window has a size.
    AwaitSize,
    /// Create the swapchain with `config` and what is bound to it, in the
    /// order of the plan, then report how many of each were built.
    Build { config: SwapchainConfig },
    /// Stop the loop: wait until the device is idle as far as that still
    /// works, and destroy everything in the order of the plan.
    Abort { failure: Failure },
}

} // verus!
