//! The render loop as a state machine.
//!
//! [`VulkanApiObjects`] holds what the loop knows: which objects exist, the
//! swapchain in use, the ring of synchronisation slots and the phase of the
//! frame being drawn. It makes no call into the driver. The embedding program
//! asks it what to do ([`VulkanApiObjects::draw`] at the start of a frame,
//! [`VulkanApiObjects::pump`] after each thing done), does it, and reports
//! what came back.
//!
//! The behaviour is fixed by two functions on [`EngineModel`], [`begin_frame`]
//! and [`step`]; the executable methods are proved to compute exactly these.

use crate::codes::{color_attachment_output_stage, stage_color_attachment_output};
use crate::constants::ValidationInfo;
use crate::frame::{
    acquire_verdict, classify_acquire_error, classify_present_error, present_verdict, Failure,
    FrameAction, FrameEvent, Operation, Phase, Verdict, WAIT_FOREVER,
};
use crate::lifecycle::{
    dependencies_alive, is_build_of, is_teardown_of, lemma_context_build_ready,
    lemma_generation_build_ready, lemma_teardown_ready, Resource, ResourceArena, Scope,
};
use crate::swapchain::{create, planned, SwapchainConfig, SwapchainError};
use crate::sync::{FrameSync, FrameSyncModel};
use crate::windows::WindowSet;
use vstd::prelude::*;

verus! {

/// What the loop knows, as a mathematical value.
pub struct EngineModel {
    /// The open windows, in the order in which they were opened.
    pub windows: Seq<u64>,
    /// The kinds of object that exist.
    pub alive: Set<Resource>,
    /// Whether the debug messenger is part of the context.
    pub validation: bool,
    /// The swapchain in use, while there is one.
    pub swapchain: Option<SwapchainConfig>,
    /// The number of images of the swapchain in use, which is also the number
    /// of its image views, frame targets, uniform buffers, descriptor sets and
    /// command buffers.
    pub image_count: u32,
    /// The ring of synchronisation slots.
    pub sync: FrameSyncModel,
    /// Where the loop stands.
    pub phase: Phase,
    /// The time handed to the frame being drawn, in microseconds.
    pub elapsed: u32,
}

/// `alive` holds the context and nothing else.
pub open spec fn is_context(alive: Set<Resource>, validation: bool) -> bool {
    forall|kind: Resource|
        alive.contains(kind) <==> (Scope::Context { validation }).covers(kind)
}

/// `alive` holds the context and the objects bound to the swapchain.
pub open spec fn is_complete(alive: Set<Resource>, validation: bool) -> bool {
    forall|kind: Resource|
        alive.contains(kind) <==> (Scope::Context { validation }).covers(kind)
            || kind.in_generation()
}

/// No frame is in flight.
pub open spec fn none_pending(sync: FrameSyncModel) -> bool {
    forall|slot: int| 0 <= slot < sync.pending.len() ==> !sync.pending[slot]
}

impl EngineModel {
    /// What holds of the loop at all times.
    ///
    /// While frames are drawn, the context and everything bound to the
    /// swapchain exist, and the swapchain has images; without a swapchain no
    /// images are counted. An image is acquired
    /// only on a slot whose fence has been waited for. While the swapchain is
    /// being replaced no frame is in flight, and a set is built only for an
    /// extent that has an area. Once the loop has stopped nothing exists.
    pub open spec fn wf(self) -> bool {
        &&& self.sync.wf()
        &&& self.windows.no_duplicates()
        &&& dependencies_alive(self.alive)
        &&& (self.swapchain is None ==> self.image_count == 0)
        &&& match self.phase {
            Phase::Compute => {
                &&& self.alive == Set::<Resource>::empty().insert(Resource::Instance)
                &&& self.swapchain is None
                &&& none_pending(self.sync)
            },
            Phase::Idle => {
                &&& is_complete(self.alive, self.validation)
                &&& self.swapchain is Some
                &&& self.image_count > 0
            },
            Phase::AcquireImage => {
                &&& is_complete(self.alive, self.validation)
                &&& self.swapchain is Some
                &&& self.image_count > 0
                &&& !self.sync.current_pending()
            },
            Phase::RecordedSubmit { image_index } => {
                &&& is_complete(self.alive, self.validation)
                &&& self.swapchain is Some
                &&& image_index < self.image_count
                &&& self.sync.current_pending()
            },
            Phase::Present { image_index } => {
                &&& is_complete(self.alive, self.validation)
                &&& self.swapchain is Some
                &&& image_index < self.image_count
                &&& self.sync.current_pending()
            },
            Phase::RecreateSwapchain { planned: None } => {
                &&& is_context(self.alive, self.validation)
                &&& self.swapchain is None
                &&& none_pending(self.sync)
            },
            Phase::RecreateSwapchain { planned: Some(config) } => {
                &&& is_complete(self.alive, self.validation)
                &&& self.swapchain is None
                &&& none_pending(self.sync)
                &&& !config.extent.has_no_area()
            },
            Phase::Failed { .. } | Phase::Released => {
                &&& self.alive == Set::<Resource>::empty()
                &&& self.swapchain is None
                &&& none_pending(self.sync)
            },
        }
    }

    /// The loop right after the context has been built for the window
    /// `window`: no swapchain yet, the cursor at slot 0.
    pub open spec fn started(window: u64, validation: bool) -> EngineModel {
        EngineModel {
            windows: seq![window],
            alive: (Scope::Context { validation }).kinds(),
            validation,
            swapchain: None,
            image_count: 0,
            sync: FrameSyncModel::initial(),
            phase: Phase::RecreateSwapchain { planned: None },
            elapsed: 0,
        }
    }

    /// The loop of a program that only computes: an instance and nothing
    /// else, no window.
    pub open spec fn computing() -> EngineModel {
        EngineModel {
            windows: Seq::<u64>::empty(),
            alive: Set::<Resource>::empty().insert(Resource::Instance),
            validation: false,
            swapchain: None,
            image_count: 0,
            sync: FrameSyncModel::initial(),
            phase: Phase::Compute,
            elapsed: 0,
        }
    }

    /// The loop after the swapchain has been found stale: the device has gone
    /// idle and everything bound to the swapchain is gone.
    pub open spec fn recreating(self) -> EngineModel {
        EngineModel {
            alive: self.alive.difference(Scope::Generation.kinds()),
            swapchain: None,
            image_count: 0,
            sync: self.sync.drained(),
            phase: Phase::RecreateSwapchain { planned: None },
            ..self
        }
    }

    /// The loop after it has stopped for `failure`: nothing is left alive.
    pub open spec fn failed(self, failure: Failure) -> EngineModel {
        EngineModel {
            alive: Set::<Resource>::empty(),
            swapchain: None,
            image_count: 0,
            sync: self.sync.drained(),
            phase: Phase::Failed { failure },
            ..self
        }
    }

    /// The loop after everything has been released.
    pub open spec fn released(self) -> EngineModel {
        EngineModel {
            alive: Set::<Resource>::empty(),
            swapchain: None,
            image_count: 0,
            sync: self.sync.drained(),
            phase: Phase::Released,
            ..self
        }
    }
}

/// The start of a frame that is handed the time `elapsed`.
///
/// Between two frames, the fence of the slot in use is waited for and the next
/// image acquired. While there is no swapchain, the surface is to be looked at
/// again. In every other phase the request is left unanswered.
pub open spec fn begin_frame(s: EngineModel, elapsed: u32) -> (EngineModel, FrameAction) {
    match s.phase {
        Phase::Idle => (
            EngineModel { phase: Phase::AcquireImage, sync: s.sync.retired(), elapsed, ..s },
            FrameAction::Acquire { slot: s.sync.current_frame as usize, timeout: WAIT_FOREVER },
        ),
        Phase::RecreateSwapchain { planned: None } => (s, FrameAction::Survey),
        _ => (s, FrameAction::Rest),
    }
}

/// The answer to a stale swapchain: everything bound to it is torn down.
pub open spec fn recreate(s: EngineModel) -> (EngineModel, FrameAction) {
    (s.recreating(), FrameAction::TearDown)
}

/// The answer to an error the loop does not recover from.
pub open spec fn fail(s: EngineModel, failure: Failure) -> (EngineModel, FrameAction) {
    (s.failed(failure), FrameAction::Abort { failure })
}

/// What the loop does with what the embedding program reports.
///
/// - A failed call that is not recovered from stops the loop, in any phase.
/// - An acquired image is submitted with the slot in use. "Out of date" on
///   acquiring tears the swapchain down and leaves the cursor where it is.
/// - After the submission the image is presented.
/// - After the presentation the cursor moves on. Where the driver calls the
///   swapchain out of date or suboptimal, the swapchain is then torn down.
/// - While there is no swapchain, a report of the surface either leads to a
///   new one, or, where the drawable area is empty, to waiting.
/// - What was built for a new swapchain is taken into use only if there are
///   images and everything comes one per image.
/// - A report that does not belong to the phase changes nothing.
pub open spec fn step(s: EngineModel, event: FrameEvent) -> (EngineModel, FrameAction) {
    match s.phase {
        Phase::Failed { failure } => (s, FrameAction::Abort { failure }),
        Phase::Released => (s, FrameAction::Rest),
        _ => match event {
            FrameEvent::Fault { operation, code } => fail(s, Failure::Driver { operation, code }),
            FrameEvent::Acquired { image_index, suboptimal } => match s.phase {
                Phase::AcquireImage => if image_index < s.image_count {
                    (
                        EngineModel {
                            phase: Phase::RecordedSubmit { image_index },
                            sync: s.sync.submitted(),
                            ..s
                        },
                        FrameAction::Submit {
                            slot: s.sync.current_frame as usize,
                            image_index,
                            elapsed: s.elapsed,
                            wait_stage: color_attachment_output_stage(),
                        },
                    )
                } else {
                    fail(s, Failure::ImageOutOfRange { image_index })
                },
                _ => (s, FrameAction::Rest),
            },
            FrameEvent::AcquireFailed { code } => match s.phase {
                Phase::AcquireImage => match acquire_verdict(code) {
                    Verdict::Recreate => recreate(s),
                    Verdict::Fatal => fail(
                        s,
                        Failure::Driver { operation: Operation::AcquireImage, code },
                    ),
                },
                _ => (s, FrameAction::Rest),
            },
            FrameEvent::Submitted => match s.phase {
                Phase::RecordedSubmit { image_index } => (
                    EngineModel { phase: Phase::Present { image_index }, ..s },
                    FrameAction::Present { slot: s.sync.current_frame as usize, image_index },
                ),
                _ => (s, FrameAction::Rest),
            },
            FrameEvent::Presented { suboptimal } => match s.phase {
                Phase::Present { .. } => if suboptimal {
                    recreate(EngineModel { sync: s.sync.advanced(), ..s })
                } else {
                    (
                        EngineModel { phase: Phase::Idle, sync: s.sync.advanced(), ..s },
                        FrameAction::Rest,
                    )
                },
                _ => (s, FrameAction::Rest),
            },
            FrameEvent::PresentFailed { code } => match s.phase {
                Phase::Present { .. } => match present_verdict(code) {
                    Verdict::Recreate => recreate(EngineModel { sync: s.sync.advanced(), ..s }),
                    Verdict::Fatal => fail(
                        s,
                        Failure::Driver { operation: Operation::QueuePresent, code },
                    ),
                },
                _ => (s, FrameAction::Rest),
            },
            FrameEvent::SurfaceReport { support, drawable } => match s.phase {
                Phase::RecreateSwapchain { planned: None } => match planned(
                    support.capabilities,
                    support.formats@,
                    support.present_modes@,
                    drawable,
                ) {
                    Ok(config) => (
                        EngineModel {
                            alive: s.alive.union(Scope::Generation.kinds()),
                            phase: Phase::RecreateSwapchain { planned: Some(config) },
                            ..s
                        },
                        FrameAction::Build { config },
                    ),
                    Err(SwapchainError::ZeroArea) => (s, FrameAction::AwaitSize),
                    Err(SwapchainError::NoFormat) => fail(s, Failure::NoSurfaceFormat),
                },
                _ => (s, FrameAction::Rest),
            },
            FrameEvent::Built { built } => match s.phase {
                Phase::RecreateSwapchain { planned: Some(config) } => if built.images == 0 {
                    fail(s, Failure::NoImages)
                } else if !built.one_per_image() {
                    fail(s, Failure::CountMismatch)
                } else {
                    (
                        EngineModel {
                            swapchain: Some(config),
                            image_count: built.images,
                            phase: Phase::Idle,
                            ..s
                        },
                        FrameAction::Rest,
                    )
                },
                _ => (s, FrameAction::Rest),
            },
        },
    }
}

/// What the plan that goes with an action holds: for `TearDown` the order in
/// which to destroy what is bound to the swapchain, for `Build` the order in
/// which to create it, for `Abort` the order in which to destroy everything
/// that is left. With every other action the plan is empty.
pub open spec fn plan_fits(before: Set<Resource>, action: FrameAction, plan: Seq<Resource>) -> bool {
    match action {
        FrameAction::TearDown => is_teardown_of(before, Scope::Generation, plan),
        FrameAction::Build { .. } => is_build_of(before, Scope::Generation, plan),
        FrameAction::Abort { .. } => is_teardown_of(before, Scope::Everything, plan),
        _ => plan.len() == 0,
    }
}

/// The state of the render loop of one device.
pub struct VulkanApiObjects {
    windows: WindowSet,
    resources: ResourceArena,
    validation: bool,
    swapchain: Option<SwapchainConfig>,
    image_count: u32,
    sync: FrameSync,
    phase: Phase,
    elapsed: u32,
    plan: Vec<Resource>,
}

impl View for VulkanApiObjects {
    type V = EngineModel;

    closed spec fn view(&self) -> EngineModel {
        EngineModel {
            windows: self.windows@,
            alive: self.resources@,
            validation: self.validation,
            swapchain: self.swapchain,
            image_count: self.image_count,
            sync: self.sync@,
            phase: self.phase,
            elapsed: self.elapsed,
        }
    }
}

impl VulkanApiObjects {
    /// The parts are well-formed each for itself.
    closed spec fn parts_wf(&self) -> bool {
        &&& self.resources.wf()
        &&& self.sync@.wf()
        &&& self.windows.wf()
    }

    /// The state is well-formed: its parts are, and its value is.
    pub closed spec fn wf(&self) -> bool {
        &&& self.parts_wf()
        &&& self@.wf()
    }

    /// The plan that goes with the action last handed out: the kinds of object
    /// to create or destroy, in order.
    pub closed spec fn plan_view(&self) -> Seq<Resource> {
        self.plan@
    }

    /// The value of a well-formed state is well-formed.
    pub proof fn lemma_wf_value(&self)
        requires
            self.wf(),
        ensures
            self@.wf(),
    {
    }

    /// Starts the engine for a window: the context is to be built in the order
    /// of the plan, with the debug messenger where `validation` asks for it.
    /// There is no swapchain yet; it is built once the surface has been
    /// reported.
    pub fn init(window: u64, validation: &ValidationInfo) -> (objects: VulkanApiObjects)
        ensures
            objects.wf(),
            objects@ == EngineModel::started(window, validation.is_enable),
            is_build_of(
                Set::<Resource>::empty(),
                (Scope::Context { validation: validation.is_enable }),
                objects.plan_view(),
            ),
    {
        let scope = Scope::Context { validation: validation.is_enable };
        let mut resources = ResourceArena::new();
        proof {
            lemma_context_build_ready(resources@, validation.is_enable);
        }
        let plan = resources.build(scope);
        let mut windows = WindowSet::new();
        windows.insert(window);
        let objects = VulkanApiObjects {
            windows,
            resources,
            validation: validation.is_enable,
            swapchain: None,
            image_count: 0,
            sync: FrameSync::new(),
            phase: Phase::RecreateSwapchain { planned: None },
            elapsed: 0,
            plan,
        };
        proof {
            resources.lemma_wf_dependencies_alive();
            assert(objects@.windows =~= seq![window]);
            assert(objects@.alive =~= scope.kinds());
        }
        objects
    }

    /// Starts the engine for a program that only computes: the instance is the
    /// one object to build, and there is nothing to draw to.
    pub fn init_compute() -> (objects: VulkanApiObjects)
        ensures
            objects.wf(),
            objects@ == EngineModel::computing(),
            objects.plan_view() == seq![Resource::Instance],
    {
        let mut resources = ResourceArena::new();
        let done = resources.create(Resource::Instance);
        assert(done);
        let mut plan: Vec<Resource> = Vec::new();
        plan.push(Resource::Instance);
        let objects = VulkanApiObjects {
            windows: WindowSet::new(),
            resources,
            validation: false,
            swapchain: None,
            image_count: 0,
            sync: FrameSync::new(),
            phase: Phase::Compute,
            elapsed: 0,
            plan,
        };
        proof {
            resources.lemma_wf_dependencies_alive();
            assert(objects.plan_view() =~= seq![Resource::Instance]);
        }
        objects
    }

    /// Where the loop stands.
    pub fn phase(&self) -> (phase: Phase)
        ensures
            phase == self@.phase,
    {
        self.phase
    }

    /// The slot that the frame being drawn uses.
    pub fn current_frame(&self) -> (slot: usize)
        requires
            self.wf(),
        ensures
            slot == self@.sync.current_frame,
    {
        self.sync.current_frame()
    }

    /// Whether a frame submitted with `slot` is still in flight.
    pub fn is_pending(&self, slot: usize) -> (b: bool)
        requires
            self.wf(),
        ensures
            b == (slot < self@.sync.pending.len() && self@.sync.pending[slot as int]),
    {
        self.sync.is_pending(slot)
    }

    /// The swapchain in use, while there is one.
    pub fn swapchain(&self) -> (config: Option<SwapchainConfig>)
        ensures
            config == self@.swapchain,
    {
        self.swapchain
    }

    /// The number of images of the swapchain in use; 0 while there is none.
    pub fn image_count(&self) -> (count: u32)
        ensures
            count == self@.image_count,
    {
        self.image_count
    }

    /// Whether an object of `kind` exists.
    pub fn is_alive(&self, kind: Resource) -> (b: bool)
        requires
            self.wf(),
        ensures
            b == self@.alive.contains(kind),
    {
        self.resources.is_alive(kind)
    }

    /// The status the process is to exit with: 0, unless the loop has stopped
    /// on a failure.
    pub fn exit_status(&self) -> (status: i32)
        ensures
            status == if self@.phase is Failed {
                1i32
            } else {
                0i32
            },
    {
        match self.phase {
            Phase::Failed { failure: _ } => 1,
            _ => 0,
        }
    }

    /// The plan that goes with the action last handed out.
    pub fn plan(&self) -> (plan: &Vec<Resource>)
        ensures
            plan@ == self.plan_view(),
    {
        &self.plan
    }

    /// The open windows.
    pub fn windows(&self) -> (windows: &WindowSet)
        ensures
            windows@ == self@.windows,
            windows.wf() == self@.windows.no_duplicates(),
    {
        &self.windows
    }

    /// Records that the window `id` has been opened. Returns whether it was
    /// not open before.
    pub fn open_window(&mut self, id: u64) -> (added: bool)
        requires
            old(self).wf(),
        ensures
            final(self).wf(),
            added == !old(self)@.windows.contains(id),
            final(self)@ == (EngineModel {
                windows: crate::windows::with_window(old(self)@.windows, id),
                ..old(self)@
            }),
            final(self).plan_view() == old(self).plan_view(),
    {
        self.windows.insert(id)
    }

    /// Records that the window `id` has been closed. Returns whether it was
    /// open.
    pub fn close_window(&mut self, id: u64) -> (removed: bool)
        requires
            old(self).wf(),
        ensures
            final(self).wf(),
            removed == old(self)@.windows.contains(id),
            final(self)@ == (EngineModel {
                windows: crate::windows::without_window(old(self)@.windows, id),
                ..old(self)@
            }),
            final(self).plan_view() == old(self).plan_view(),
    {
        self.windows.remove(id)
    }

    /// Starts a frame, handing it the time `delta_time` in microseconds.
    ///
    /// Between two frames the answer is to wait for the fence of the slot in
    /// use and to acquire an image. While there is no swapchain the answer is
    /// to report the surface. In any other phase nothing happens.
    pub fn draw(&mut self, delta_time: u32) -> (action: FrameAction)
        requires
            old(self).wf(),
        ensures
            final(self).wf(),
            final(self)@ == begin_frame(old(self)@, delta_time).0,
            action == begin_frame(old(self)@, delta_time).1,
            plan_fits(old(self)@.alive, action, final(self).plan_view()),
    {
        self.plan = Vec::new();
        match self.phase {
            Phase::Idle => {
                self.sync.retire();
                self.elapsed = delta_time;
                self.phase = Phase::AcquireImage;
                FrameAction::Acquire { slot: self.sync.current_frame(), timeout: WAIT_FOREVER }
            },
            Phase::RecreateSwapchain { planned: None } => FrameAction::Survey,
            _ => FrameAction::Rest,
        }
    }

    /// Takes in what the embedding program reports and answers what it is to
    /// do next.
    pub fn pump(&mut self, event: FrameEvent) -> (action: FrameAction)
        requires
            old(self).wf(),
        ensures
            final(self).wf(),
            final(self)@ == step(old(self)@, event).0,
            action == step(old(self)@, event).1,
            plan_fits(old(self)@.alive, action, final(self).plan_view()),
    {
        self.plan = Vec::new();
        match self.phase {
            Phase::Failed { failure } => {
                return FrameAction::Abort { failure };
            },
            Phase::Released => {
                return FrameAction::Rest;
            },
            _ => {},
        }
        match event {
            FrameEvent::Fault { operation, code } => self.fail(
                Failure::Driver { operation, code },
            ),
            FrameEvent::Acquired { image_index, suboptimal: _ } => match self.phase {
                Phase::AcquireImage => {
                    if image_index < self.image_count {
                        self.sync.submit();
                        self.phase = Phase::RecordedSubmit { image_index };
                        FrameAction::Submit {
                            slot: self.sync.current_frame(),
                            image_index,
                            elapsed: self.elapsed,
                            wait_stage: stage_color_attachment_output(),
                        }
                    } else {
                        self.fail(Failure::ImageOutOfRange { image_index })
                    }
                },
                _ => FrameAction::Rest,
            },
            FrameEvent::AcquireFailed { code } => match self.phase {
                Phase::AcquireImage => match classify_acquire_error(code) {
                    Verdict::Recreate => self.recreate_swapchain(),
                    Verdict::Fatal => self.fail(
                        Failure::Driver { operation: Operation::AcquireImage, code },
                    ),
                },
                _ => FrameAction::Rest,
            },
            FrameEvent::Submitted => match self.phase {
                Phase::RecordedSubmit { image_index } => {
                    self.phase = Phase::Present { image_index };
                    FrameAction::Present { slot: self.sync.current_frame(), image_index }
                },
                _ => FrameAction::Rest,
            },
            FrameEvent::Presented { suboptimal } => match self.phase {
                Phase::Present { .. } => {
                    self.sync.advance();
                    if suboptimal {
                        self.recreate_swapchain()
                    } else {
                        self.phase = Phase::Idle;
                        FrameAction::Rest
                    }
                },
                _ => FrameAction::Rest,
            },
            FrameEvent::PresentFailed { code } => match self.phase {
                Phase::Present { .. } => match classify_present_error(code) {
                    Verdict::Recreate => {
                        self.sync.advance();
                        self.recreate_swapchain()
                    },
                    Verdict::Fatal => self.fail(
                        Failure::Driver { operation: Operation::QueuePresent, code },
                    ),
                },
                _ => FrameAction::Rest,
            },
            FrameEvent::SurfaceReport { support, drawable } => match self.phase {
                Phase::RecreateSwapchain { planned: None } => match create(&support, drawable) {
                    Ok(config) => {
                        proof {
                            assert((Scope::Context { validation: false }).kinds().subset_of(
                                self.resources@,
                            ));
                            lemma_generation_build_ready(self.resources@);
                        }
                        self.plan = self.resources.build(Scope::Generation);
                        self.phase = Phase::RecreateSwapchain { planned: Some(config) };
                        proof {
                            self.resources.lemma_wf_dependencies_alive();
                        }
                        FrameAction::Build { config }
                    },
                    Err(SwapchainError::ZeroArea) => FrameAction::AwaitSize,
                    Err(SwapchainError::NoFormat) => self.fail(Failure::NoSurfaceFormat),
                },
                _ => FrameAction::Rest,
            },
            FrameEvent::Built { built } => match self.phase {
                Phase::RecreateSwapchain { planned: Some(config) } => {
                    if built.images == 0 {
                        self.fail(Failure::NoImages)
                    } else if !built.is_one_per_image() {
                        self.fail(Failure::CountMismatch)
                    } else {
                        self.swapchain = Some(config);
                        self.image_count = built.images;
                        self.phase = Phase::Idle;
                        FrameAction::Rest
                    }
                },
                _ => FrameAction::Rest,
            },
        }
    }

    /// Releases everything: the plan lists what is left alive, in the order in
    /// which it is to be destroyed. The loop answers nothing after that.
    pub fn release(&mut self)
        requires
            old(self).wf(),
        ensures
            final(self).wf(),
            final(self)@ == old(self)@.released(),
            is_teardown_of(old(self)@.alive, Scope::Everything, final(self).plan_view()),
    {
        self.sync.drain();
        proof {
            lemma_teardown_ready(self.resources@, Scope::Everything);
        }
        self.plan = self.resources.tear_down(Scope::Everything);
        self.swapchain = None;
        self.image_count = 0;
        self.phase = Phase::Released;
        proof {
            assert(self@.alive =~= Set::<Resource>::empty());
            assert(none_pending(self@.sync));
        }
    }

    /// Marks everything that is bound to the swapchain as destroyed and plans
    /// its destruction.
    fn cleanup_swapchain(&mut self)
        requires
            old(self).parts_wf(),
        ensures
            final(self).parts_wf(),
            final(self)@ == (EngineModel {
                alive: old(self)@.alive.difference(Scope::Generation.kinds()),
                ..old(self)@
            }),
            is_teardown_of(old(self)@.alive, Scope::Generation, final(self).plan_view()),
    {
        proof {
            lemma_teardown_ready(self.resources@, Scope::Generation);
        }
        self.plan = self.resources.tear_down(Scope::Generation);
    }

    /// Gives the swapchain up as stale: the device is to go idle, and
    /// everything bound to the swapchain is torn down.
    fn recreate_swapchain(&mut self) -> (action: FrameAction)
        requires
            old(self).parts_wf(),
            old(self)@.windows.no_duplicates(),
            is_complete(old(self)@.alive, old(self)@.validation),
        ensures
            final(self).wf(),
            final(self)@ == old(self)@.recreating(),
            action == FrameAction::TearDown,
            is_teardown_of(old(self)@.alive, Scope::Generation, final(self).plan_view()),
    {
        self.sync.drain();
        self.cleanup_swapchain();
        self.swapchain = None;
        self.image_count = 0;
        self.phase = Phase::RecreateSwapchain { planned: None };
        proof {
            self.resources.lemma_wf_dependencies_alive();
            assert(none_pending(self@.sync));
        }
        FrameAction::TearDown
    }

    /// Stops the loop for `failure`: the device is to go idle, and everything
    /// is torn down.
    fn fail(&mut self, failure: Failure) -> (action: FrameAction)
        requires
            old(self).parts_wf(),
            old(self)@.windows.no_duplicates(),
        ensures
            final(self).wf(),
            final(self)@ == old(self)@.failed(failure),
            action == (FrameAction::Abort { failure }),
            is_teardown_of(old(self)@.alive, Scope::Everything, final(self).plan_view()),
    {
        self.sync.drain();
        proof {
            lemma_teardown_ready(self.resources@, Scope::Everything);
        }
        self.plan = self.resources.tear_down(Scope::Everything);
        self.swapchain = None;
        self.image_count = 0;
        self.phase = Phase::Failed { failure };
        proof {
            assert(self@.alive =~= Set::<Resource>::empty());
            assert(none_pending(self@.sync));
        }
        FrameAction::Abort { failure }
    }
}

} // verus!
