//! The GPU objects the engine owns, what each of them is built from, and the
//! order in which they may be created and destroyed.
//!
//! A [`ResourceArena`] records which kinds of object are alive. An object may be
//! created only while everything it is built from is alive, and destroyed only
//! while nothing built from it is alive. The arena hands out whole plans (to
//! build the context, to build or tear down the objects bound to one swapchain,
//! to tear down everything) and each plan is proved to respect that rule at
//! every step.

use vstd::prelude::*;

verus! {

/// One kind of GPU object. The variants are listed in the order in which a
/// complete set is built.
#[derive(Clone, Copy, PartialEq, Eq, Structural, Debug)]
pub enum Resource {
    Instance,
    DebugMessenger,
    Surface,
    Device,
    Swapchain,
    ImageViews,
    RenderPass,
    DescriptorSetLayout,
    PipelineLayout,
    Pipeline,
    Framebuffers,
    CommandPool,
    VertexBuffer,
    IndexBuffer,
    UniformBuffers,
    DescriptorPool,
    DescriptorSets,
    CommandBuffers,
    SyncObjects,
}

/// The number of kinds of [`Resource`].
pub const RESOURCE_KINDS: usize = 19;

impl Resource {
    /// The position of this kind in the build order.
    pub open spec fn rank(self) -> nat {
        match self {
            Resource::Instance => 0,
            Resource::DebugMessenger => 1,
            Resource::Surface => 2,
            Resource::Device => 3,
            Resource::Swapchain => 4,
            Resource::ImageViews => 5,
            Resource::RenderPass => 6,
            Resource::DescriptorSetLayout => 7,
            Resource::PipelineLayout => 8,
            Resource::Pipeline => 9,
            Resource::Framebuffers => 10,
            Resource::CommandPool => 11,
            Resource::VertexBuffer => 12,
            Resource::IndexBuffer => 13,
            Resource::UniformBuffers => 14,
            Resource::DescriptorPool => 15,
            Resource::DescriptorSets => 16,
            Resource::CommandBuffers => 17,
            Resource::SyncObjects => 18,
        }
    }

    /// The kind that stands at position `i` of the build order.
    pub open spec fn at(i: nat) -> Resource {
        if i == 0 {
            Resource::Instance
        } else if i == 1 {
            Resource::DebugMessenger
        } else if i == 2 {
            Resource::Surface
        } else if i == 3 {
            Resource::Device
        } else if i == 4 {
            Resource::Swapchain
        } else if i == 5 {
            Resource::ImageViews
        } else if i == 6 {
            Resource::RenderPass
        } else if i == 7 {
            Resource::DescriptorSetLayout
        } else if i == 8 {
            Resource::PipelineLayout
        } else if i == 9 {
            Resource::Pipeline
        } else if i == 10 {
            Resource::Framebuffers
        } else if i == 11 {
            Resource::CommandPool
        } else if i == 12 {
            Resource::VertexBuffer
        } else if i == 13 {
            Resource::IndexBuffer
        } else if i == 14 {
            Resource::UniformBuffers
        } else if i == 15 {
            Resource::DescriptorPool
        } else if i == 16 {
            Resource::DescriptorSets
        } else if i == 17 {
            Resource::CommandBuffers
        } else {
            Resource::SyncObjects
        }
    }

    /// Whether an object of this kind is built from one of kind `other`, and so
    /// must be created after it and destroyed before it.
    pub open spec fn depends_on(self, other: Resource) -> bool {
        match self {
            Resource::Instance => false,
            Resource::DebugMessenger => other == Resource::Instance,
            Resource::Surface => other == Resource::Instance,
            Resource::Device => other == Resource::Instance || other == Resource::Surface,
            Resource::Swapchain => other == Resource::Device || other == Resource::Surface,
            Resource::ImageViews => other == Resource::Swapchain,
            Resource::RenderPass => other == Resource::Swapchain,
            Resource::DescriptorSetLayout => other == Resource::Device,
            Resource::PipelineLayout => other == Resource::DescriptorSetLayout,
            Resource::Pipeline => other == Resource::RenderPass || other
                == Resource::PipelineLayout,
            Resource::Framebuffers => other == Resource::RenderPass || other
                == Resource::ImageViews,
            Resource::CommandPool => other == Resource::Device,
            Resource::VertexBuffer => other == Resource::CommandPool,
            Resource::IndexBuffer => other == Resource::CommandPool,
            Resource::UniformBuffers => other == Resource::Swapchain,
            Resource::DescriptorPool => other == Resource::Swapchain,
            Resource::DescriptorSets => other == Resource::DescriptorPool || other
                == Resource::DescriptorSetLayout || other == Resource::UniformBuffers,
            Resource::CommandBuffers => other == Resource::CommandPool || other
                == Resource::Pipeline || other == Resource::Framebuffers || other
                == Resource::VertexBuffer || other == Resource::IndexBuffer || other
                == Resource::DescriptorSets,
            Resource::SyncObjects => other == Resource::Device,
        }
    }

    /// Whether objects of this kind belong to one swapchain's lifetime: they
    /// are compiled against its format, extent or image count, and are rebuilt
    /// whenever the swapchain is.
    pub open spec fn in_generation(self) -> bool {
        match self {
            Resource::Swapchain
            | Resource::ImageViews
            | Resource::RenderPass
            | Resource::PipelineLayout
            | Resource::Pipeline
            | Resource::Framebuffers
            | Resource::UniformBuffers
            | Resource::DescriptorPool
            | Resource::DescriptorSets
            | Resource::CommandBuffers => true,
            _ => false,
        }
    }

    /// The position of this kind in the build order.
    pub fn index(self) -> (i: usize)
        ensures
            i == self.rank(),
            i < RESOURCE_KINDS,
            Resource::at(i as nat) == self,
    {
        match self {
            Resource::Instance => 0,
            Resource::DebugMessenger => 1,
            Resource::Surface => 2,
            Resource::Device => 3,
            Resource::Swapchain => 4,
            Resource::ImageViews => 5,
            Resource::RenderPass => 6,
            Resource::DescriptorSetLayout => 7,
            Resource::PipelineLayout => 8,
            Resource::Pipeline => 9,
            Resource::Framebuffers => 10,
            Resource::CommandPool => 11,
            Resource::VertexBuffer => 12,
            Resource::IndexBuffer => 13,
            Resource::UniformBuffers => 14,
            Resource::DescriptorPool => 15,
            Resource::DescriptorSets => 16,
            Resource::CommandBuffers => 17,
            Resource::SyncObjects => 18,
        }
    }

    /// The kind at position `i` of the build order, or `None` where `i` is not
    /// a position.
    pub fn from_index(i: usize) -> (kind: Option<Resource>)
        ensures
            i < RESOURCE_KINDS ==> kind == Some(Resource::at(i as nat)) && Resource::at(
                i as nat,
            ).rank() == i,
            i >= RESOURCE_KINDS ==> kind is None,
    {
        match i {
            0 => Some(Resource::Instance),
            1 => Some(Resource::DebugMessenger),
            2 => Some(Resource::Surface),
            3 => Some(Resource::Device),
            4 => Some(Resource::Swapchain),
            5 => Some(Resource::ImageViews),
            6 => Some(Resource::RenderPass),
            7 => Some(Resource::DescriptorSetLayout),
            8 => Some(Resource::PipelineLayout),
            9 => Some(Resource::Pipeline),
            10 => Some(Resource::Framebuffers),
            11 => Some(Resource::CommandPool),
            12 => Some(Resource::VertexBuffer),
            13 => Some(Resource::IndexBuffer),
            14 => Some(Resource::UniformBuffers),
            15 => Some(Resource::DescriptorPool),
            16 => Some(Resource::DescriptorSets),
            17 => Some(Resource::CommandBuffers),
            18 => Some(Resource::SyncObjects),
            _ => None,
        }
    }

    /// Whether an object of this kind is built from one of kind `other`.
    pub fn needs(self, other: Resource) -> (b: bool)
        ensures
            b == self.depends_on(other),
    {
        match self {
            Resource::Instance => false,
            Resource::DebugMessenger => other == Resource::Instance,
            Resource::Surface => other == Resource::Instance,
            Resource::Device => other == Resource::Instance || other == Resource::Surface,
            Resource::Swapchain => other == Resource::Device || other == Resource::Surface,
            Resource::ImageViews => other == Resource::Swapchain,
            Resource::RenderPass => other == Resource::Swapchain,
            Resource::DescriptorSetLayout => other == Resource::Device,
            Resource::PipelineLayout => other == Resource::DescriptorSetLayout,
            Resource::Pipeline => other == Resource::RenderPass || other
                == Resource::PipelineLayout,
            Resource::Framebuffers => other == Resource::RenderPass || other
                == Resource::ImageViews,
            Resource::CommandPool => other == Resource::Device,
            Resource::VertexBuffer => other == Resource::CommandPool,
            Resource::IndexBuffer => other == Resource::CommandPool,
            Resource::UniformBuffers => other == Resource::Swapchain,
            Resource::DescriptorPool => other == Resource::Swapchain,
            Resource::DescriptorSets => other == Resource::DescriptorPool || other
                == Resource::DescriptorSetLayout || other == Resource::UniformBuffers,
            Resource::CommandBuffers => other == Resource::CommandPool || other
                == Resource::Pipeline || other == Resource::Framebuffers || other
                == Resource::VertexBuffer || other == Resource::IndexBuffer || other
                == Resource::DescriptorSets,
            Resource::SyncObjects => other == Resource::Device,
        }
    }

    /// Whether objects of this kind are rebuilt together with the swapchain.
    pub fn is_swapchain_bound(self) -> (b: bool)
        ensures
            b == self.in_generation(),
    {
        match self {
            Resource::Swapchain
            | Resource::ImageViews
            | Resource::RenderPass
            | Resource::PipelineLayout
            | Resource::Pipeline
            | Resource::Framebuffers
            | Resource::UniformBuffers
            | Resource::DescriptorPool
            | Resource::DescriptorSets
            | Resource::CommandBuffers => true,
            _ => false,
        }
    }
}

/// Every kind has a position below [`RESOURCE_KINDS`], and `at` finds the kind
/// back from its position.
pub proof fn lemma_rank_is_a_numbering(kind: Resource)
    ensures
        kind.rank() < RESOURCE_KINDS,
        Resource::at(kind.rank()) == kind,
{
}

/// Whatever an object is built from stands earlier in the build order.
pub proof fn lemma_dependencies_rank_lower(kind: Resource, other: Resource)
    requires
        kind.depends_on(other),
    ensures
        other.rank() < kind.rank(),
{
}

/// Nothing outside a swapchain's generation is built from an object inside it.
pub proof fn lemma_generation_is_downstream(kind: Resource, other: Resource)
    requires
        kind.depends_on(other),
        other.in_generation(),
    ensures
        kind.in_generation(),
{
}

/// A group of kinds that is built or torn down in one go.
#[derive(Clone, Copy, PartialEq, Eq, Structural, Debug)]
pub enum Scope {
    /// What lives as long as the device: every kind outside a swapchain's
    /// generation, the debug messenger only where validation is on.
    Context { validation: bool },
    /// What is bound to one swapchain and rebuilt with it.
    Generation,
    /// Every kind.
    Everything,
}

impl Scope {
    /// Whether the scope holds `kind`.
    pub open spec fn covers(self, kind: Resource) -> bool {
        match self {
            Scope::Context { validation } => !kind.in_generation() && (validation || kind
                != Resource::DebugMessenger),
            Scope::Generation => kind.in_generation(),
            Scope::Everything => true,
        }
    }

    /// The kinds of the scope, as a set.
    pub open spec fn kinds(self) -> Set<Resource> {
        Set::new(|kind: Resource| self.covers(kind))
    }

    /// Whether the scope holds `kind`.
    pub fn includes(self, kind: Resource) -> (b: bool)
        ensures
            b == self.covers(kind),
    {
        match self {
            Scope::Context { validation } => !kind.is_swapchain_bound() && (validation || kind
                != Resource::DebugMessenger),
            Scope::Generation => kind.is_swapchain_bound(),
            Scope::Everything => true,
        }
    }
}

/// A set of living objects in which everything a living object is built from
/// is alive too.
pub open spec fn dependencies_alive(alive: Set<Resource>) -> bool {
    forall|kind: Resource, other: Resource|
        alive.contains(kind) && #[trigger] kind.depends_on(other) ==> alive.contains(other)
}

/// An object of `kind` may be created: none is alive, and everything it is
/// built from is.
pub open spec fn may_create(alive: Set<Resource>, kind: Resource) -> bool {
    &&& !alive.contains(kind)
    &&& forall|other: Resource| #[trigger] kind.depends_on(other) ==> alive.contains(other)
}

/// The object of `kind` may be destroyed: it is alive, and nothing alive is
/// built from it.
pub open spec fn may_destroy(alive: Set<Resource>, kind: Resource) -> bool {
    &&& alive.contains(kind)
    &&& forall|other: Resource| alive.contains(other) ==> !#[trigger] other.depends_on(kind)
}

/// Creating the kinds of `order` one after the other, starting from `alive`,
/// is allowed at every step.
pub open spec fn build_allowed(alive: Set<Resource>, order: Seq<Resource>) -> bool {
    forall|i: int|
        0 <= i < order.len() ==> may_create(alive.union(order.take(i).to_set()), #[trigger] order[i])
}

/// Destroying the kinds of `order` one after the other, starting from `alive`,
/// is allowed at every step.
pub open spec fn teardown_allowed(alive: Set<Resource>, order: Seq<Resource>) -> bool {
    forall|i: int|
        0 <= i < order.len() ==> may_destroy(
            alive.difference(order.take(i).to_set()),
            #[trigger] order[i],
        )
}

/// The kinds of `order` stand in build order, none of them twice.
pub open spec fn ascending(order: Seq<Resource>) -> bool {
    forall|i: int, j: int| 0 <= i < j < order.len() ==> order[i].rank() < order[j].rank()
}

/// The kinds of `order` stand in reverse build order, none of them twice.
pub open spec fn descending(order: Seq<Resource>) -> bool {
    forall|i: int, j: int| 0 <= i < j < order.len() ==> order[i].rank() > order[j].rank()
}

/// `order` is the plan that builds `scope` on top of `alive`: it creates the
/// kinds of the scope that are missing, each once, in build order, and every
/// step of it is allowed.
pub open spec fn is_build_of(alive: Set<Resource>, scope: Scope, order: Seq<Resource>) -> bool {
    &&& build_allowed(alive, order)
    &&& ascending(order)
    &&& forall|kind: Resource|
        order.contains(kind) <==> scope.covers(kind) && !alive.contains(kind)
}

/// `order` is the plan that tears `scope` down out of `alive`: it destroys
/// the living kinds of the scope, each once, in reverse build order, and every
/// step of it is allowed.
pub open spec fn is_teardown_of(alive: Set<Resource>, scope: Scope, order: Seq<Resource>) -> bool {
    &&& teardown_allowed(alive, order)
    &&& descending(order)
    &&& forall|kind: Resource|
        order.contains(kind) <==> scope.covers(kind) && alive.contains(kind)
}

/// `scope` can be built on top of `alive`: whatever a missing kind of the
/// scope is built from is alive already or belongs to the scope.
pub open spec fn build_ready(alive: Set<Resource>, scope: Scope) -> bool {
    forall|kind: Resource, other: Resource|
        scope.covers(kind) && !alive.contains(kind) && #[trigger] kind.depends_on(other)
            ==> alive.contains(other) || scope.covers(other)
}

/// `scope` can be torn down out of `alive`: whatever is built from a living
/// kind of the scope belongs to the scope or is not alive.
pub open spec fn teardown_ready(alive: Set<Resource>, scope: Scope) -> bool {
    forall|kind: Resource, other: Resource|
        scope.covers(kind) && alive.contains(kind) && alive.contains(other)
            && #[trigger] other.depends_on(kind) ==> scope.covers(other)
}

/// The context can be built on top of anything: nothing in it is built from
/// an object bound to a swapchain, and nothing is built from the debug
/// messenger.
pub proof fn lemma_context_build_ready(alive: Set<Resource>, validation: bool)
    ensures
        build_ready(alive, (Scope::Context { validation })),
{
    assert forall|kind: Resource, other: Resource|
        (Scope::Context { validation }).covers(kind) && !alive.contains(kind)
            && #[trigger] kind.depends_on(other) implies alive.contains(other) || (Scope::Context {
            validation,
        }).covers(other) by {
        if other.in_generation() {
            lemma_generation_is_downstream(kind, other);
        }
    }
}

/// A generation can be built wherever the context is alive.
pub proof fn lemma_generation_build_ready(alive: Set<Resource>)
    requires
        (Scope::Context { validation: false }).kinds().subset_of(alive),
    ensures
        build_ready(alive, Scope::Generation),
{
    assert forall|kind: Resource, other: Resource|
        Scope::Generation.covers(kind) && !alive.contains(kind) && #[trigger] kind.depends_on(
            other,
        ) implies alive.contains(other) || Scope::Generation.covers(other) by {
        if !other.in_generation() {
            assert((Scope::Context { validation: false }).kinds().contains(other));
        }
    }
}

/// A generation, and everything, can be torn down out of anything: whatever is
/// built from an object bound to a swapchain is bound to it too.
pub proof fn lemma_teardown_ready(alive: Set<Resource>, scope: Scope)
    requires
        scope == Scope::Generation || scope == Scope::Everything,
    ensures
        teardown_ready(alive, scope),
{
    assert forall|kind: Resource, other: Resource|
        scope.covers(kind) && alive.contains(kind) && alive.contains(other)
            && #[trigger] other.depends_on(kind) implies scope.covers(other) by {
        if scope == Scope::Generation {
            lemma_generation_is_downstream(other, kind);
        }
    }
}

/// In a plan in build order, whatever an object is built from is created
/// before it.
pub proof fn lemma_build_order_respects_dependencies(order: Seq<Resource>, i: int, j: int)
    requires
        ascending(order),
        0 <= i < order.len(),
        0 <= j < order.len(),
        order[i].depends_on(order[j]),
    ensures
        j < i,
{
    lemma_dependencies_rank_lower(order[i], order[j]);
}

/// In a plan in reverse build order, an object is destroyed before whatever
/// it is built from: image views before their swapchain, framebuffers and
/// pipelines before their render pass, everything before the device.
pub proof fn lemma_teardown_order_respects_dependencies(order: Seq<Resource>, i: int, j: int)
    requires
        descending(order),
        0 <= i < order.len(),
        0 <= j < order.len(),
        order[i].depends_on(order[j]),
    ensures
        i < j,
{
    lemma_dependencies_rank_lower(order[i], order[j]);
}

/// The record of which kinds of GPU object are alive.
pub struct ResourceArena {
    alive: Vec<bool>,
}

impl View for ResourceArena {
    type V = Set<Resource>;

    /// The kinds that are alive.
    closed spec fn view(&self) -> Set<Resource> {
        Set::new(|kind: Resource| self.alive@[kind.rank() as int])
    }
}

impl ResourceArena {
    /// The arena has a mark for every kind, and everything a living object is
    /// built from is alive.
    pub closed spec fn wf(&self) -> bool {
        &&& self.alive@.len() == RESOURCE_KINDS
        &&& dependencies_alive(self@)
    }

    /// In a well-formed arena, everything a living object is built from is
    /// alive.
    pub proof fn lemma_wf_dependencies_alive(&self)
        requires
            self.wf(),
        ensures
            dependencies_alive(self@),
    {
    }

    /// An arena in which nothing is alive.
    pub fn new() -> (arena: ResourceArena)
        ensures
            arena.wf(),
            arena@ == Set::<Resource>::empty(),
    {
        let mut alive: Vec<bool> = Vec::new();
        let mut i: usize = 0;
        while i < RESOURCE_KINDS
            invariant
                i <= RESOURCE_KINDS,
                alive@.len() == i,
                forall|j: int| 0 <= j < i ==> !alive@[j],
            decreases RESOURCE_KINDS - i,
        {
            alive.push(false);
            i = i + 1;
        }
        let arena = ResourceArena { alive };
        assert(arena@ =~= Set::<Resource>::empty());
        arena
    }

    /// Whether an object of `kind` is alive.
    pub fn is_alive(&self, kind: Resource) -> (b: bool)
        requires
            self.wf(),
        ensures
            b == self@.contains(kind),
    {
        self.alive[kind.index()]
    }

    /// Whether an object of `kind` may be created now.
    pub fn can_create(&self, kind: Resource) -> (b: bool)
        requires
            self.wf(),
        ensures
            b == may_create(self@, kind),
    {
        if self.alive[kind.index()] {
            return false;
        }
        let mut i: usize = 0;
        while i < RESOURCE_KINDS
            invariant
                i <= RESOURCE_KINDS,
                self.wf(),
                forall|other: Resource|
                    other.rank() < i && #[trigger] kind.depends_on(other) ==> self@.contains(other),
            decreases RESOURCE_KINDS - i,
        {
            if let Some(other) = Resource::from_index(i) {
                if kind.needs(other) && !self.alive[i] {
                    return false;
                }
            }
            assert forall|other: Resource|
                other.rank() < i + 1 && #[trigger] kind.depends_on(other) implies self@.contains(
                other,
            ) by {
                lemma_rank_is_a_numbering(other);
            }
            i = i + 1;
        }
        assert forall|other: Resource| #[trigger] kind.depends_on(other) implies self@.contains(
            other,
        ) by {
            lemma_rank_is_a_numbering(other);
        }
        true
    }

    /// Whether the object of `kind` may be destroyed now.
    pub fn can_destroy(&self, kind: Resource) -> (b: bool)
        requires
            self.wf(),
        ensures
            b == may_destroy(self@, kind),
    {
        if !self.alive[kind.index()] {
            return false;
        }
        let mut i: usize = 0;
        while i < RESOURCE_KINDS
            invariant
                i <= RESOURCE_KINDS,
                self.wf(),
                forall|other: Resource|
                    other.rank() < i && self@.contains(other) ==> !#[trigger] other.depends_on(
                        kind,
                    ),
            decreases RESOURCE_KINDS - i,
        {
            if let Some(other) = Resource::from_index(i) {
                if self.alive[i] && other.needs(kind) {
                    return false;
                }
            }
            assert forall|other: Resource|
                other.rank() < i + 1 && self@.contains(other) implies !#[trigger] other.depends_on(
                kind,
            ) by {
                lemma_rank_is_a_numbering(other);
            }
            i = i + 1;
        }
        assert forall|other: Resource| self@.contains(other) implies !#[trigger] other.depends_on(
            kind,
        ) by {
            lemma_rank_is_a_numbering(other);
        }
        true
    }

    /// Records the creation of an object of `kind`, where that is allowed.
    /// Returns whether it was; where it was not, nothing changes.
    pub fn create(&mut self, kind: Resource) -> (done: bool)
        requires
            old(self).wf(),
        ensures
            final(self).wf(),
            done == may_create(old(self)@, kind),
            done ==> final(self)@ == old(self)@.insert(kind),
            !done ==> final(self)@ == old(self)@,
    {
        if !self.can_create(kind) {
            return false;
        }
        self.mark(kind, true);
        true
    }

    /// Records the destruction of the object of `kind`, where that is allowed.
    /// Returns whether it was; where it was not, nothing changes.
    pub fn destroy(&mut self, kind: Resource) -> (done: bool)
        requires
            old(self).wf(),
        ensures
            final(self).wf(),
            done == may_destroy(old(self)@, kind),
            done ==> final(self)@ == old(self)@.remove(kind),
            !done ==> final(self)@ == old(self)@,
    {
        if !self.can_destroy(kind) {
            return false;
        }
        self.mark(kind, false);
        true
    }

    /// Whether `scope` can be built on top of what is alive.
    pub fn can_build(&self, scope: Scope) -> (b: bool)
        requires
            self.wf(),
        ensures
            b == build_ready(self@, scope),
    {
        let mut i: usize = 0;
        while i < RESOURCE_KINDS
            invariant
                i <= RESOURCE_KINDS,
                self.wf(),
                forall|kind: Resource, other: Resource|
                    kind.rank() < i && scope.covers(kind) && !self@.contains(kind)
                        && #[trigger] kind.depends_on(other) ==> self@.contains(other)
                        || scope.covers(other),
            decreases RESOURCE_KINDS - i,
        {
            if let Some(kind) = Resource::from_index(i) {
                if scope.includes(kind) && !self.alive[i] && self.lacks_dependency(kind, scope) {
                    return false;
                }
            }
            assert forall|kind: Resource, other: Resource|
                kind.rank() < i + 1 && scope.covers(kind) && !self@.contains(kind)
                    && #[trigger] kind.depends_on(other) implies self@.contains(other)
                || scope.covers(other) by {
                lemma_rank_is_a_numbering(kind);
            }
            i = i + 1;
        }
        assert forall|kind: Resource, other: Resource|
            scope.covers(kind) && !self@.contains(kind) && #[trigger] kind.depends_on(
                other,
            ) implies self@.contains(other) || scope.covers(other) by {
            lemma_rank_is_a_numbering(kind);
        }
        true
    }

    /// Whether something that `kind` is built from is neither alive nor part
    /// of `scope`.
    fn lacks_dependency(&self, kind: Resource, scope: Scope) -> (b: bool)
        requires
            self.wf(),
        ensures
            b == exists|other: Resource|
                #[trigger] kind.depends_on(other) && !self@.contains(other) && !scope.covers(other),
    {
        let mut j: usize = 0;
        while j < RESOURCE_KINDS
            invariant
                j <= RESOURCE_KINDS,
                self.wf(),
                forall|other: Resource|
                    other.rank() < j && #[trigger] kind.depends_on(other) ==> self@.contains(other)
                        || scope.covers(other),
            decreases RESOURCE_KINDS - j,
        {
            if let Some(other) = Resource::from_index(j) {
                if kind.needs(other) && !self.alive[j] && !scope.includes(other) {
                    return true;
                }
            }
            assert forall|other: Resource|
                other.rank() < j + 1 && #[trigger] kind.depends_on(other) implies self@.contains(
                other,
            ) || scope.covers(other) by {
                lemma_rank_is_a_numbering(other);
            }
            j = j + 1;
        }
        assert forall|other: Resource| #[trigger] kind.depends_on(other) implies self@.contains(
            other,
        ) || scope.covers(other) by {
            lemma_rank_is_a_numbering(other);
        }
        false
    }

    /// Whether `scope` can be torn down out of what is alive.
    pub fn can_tear_down(&self, scope: Scope) -> (b: bool)
        requires
            self.wf(),
        ensures
            b == teardown_ready(self@, scope),
    {
        let mut i: usize = 0;
        while i < RESOURCE_KINDS
            invariant
                i <= RESOURCE_KINDS,
                self.wf(),
                forall|kind: Resource, other: Resource|
                    other.rank() < i && scope.covers(kind) && self@.contains(kind)
                        && self@.contains(other) && #[trigger] other.depends_on(kind)
                        ==> scope.covers(other),
            decreases RESOURCE_KINDS - i,
        {
            if let Some(other) = Resource::from_index(i) {
                if self.alive[i] && !scope.includes(other) && self.holds_scope_alive(other, scope) {
                    return false;
                }
            }
            assert forall|kind: Resource, other: Resource|
                other.rank() < i + 1 && scope.covers(kind) && self@.contains(kind)
                    && self@.contains(other) && #[trigger] other.depends_on(
                    kind,
                ) implies scope.covers(other) by {
                lemma_rank_is_a_numbering(other);
            }
            i = i + 1;
        }
        assert forall|kind: Resource, other: Resource|
            scope.covers(kind) && self@.contains(kind) && self@.contains(other)
                && #[trigger] other.depends_on(kind) implies scope.covers(other) by {
            lemma_rank_is_a_numbering(other);
        }
        true
    }

    /// Whether `other` is built from a living kind of `scope`.
    fn holds_scope_alive(&self, other: Resource, scope: Scope) -> (b: bool)
        requires
            self.wf(),
        ensures
            b == exists|kind: Resource|
                #[trigger] other.depends_on(kind) && self@.contains(kind) && scope.covers(kind),
    {
        let mut j: usize = 0;
        while j < RESOURCE_KINDS
            invariant
                j <= RESOURCE_KINDS,
                self.wf(),
                forall|kind: Resource|
                    kind.rank() < j && #[trigger] other.depends_on(kind) ==> !self@.contains(kind)
                        || !scope.covers(kind),
            decreases RESOURCE_KINDS - j,
        {
            if let Some(kind) = Resource::from_index(j) {
                if other.needs(kind) && self.alive[j] && scope.includes(kind) {
                    return true;
                }
            }
            assert forall|kind: Resource|
                kind.rank() < j + 1 && #[trigger] other.depends_on(kind) implies !self@.contains(
                kind,
            ) || !scope.covers(kind) by {
                lemma_rank_is_a_numbering(kind);
            }
            j = j + 1;
        }
        assert forall|kind: Resource| #[trigger] other.depends_on(kind) implies !self@.contains(
            kind,
        ) || !scope.covers(kind) by {
            lemma_rank_is_a_numbering(kind);
        }
        false
    }

    /// Creates, in build order, every kind of `scope` that is not alive yet,
    /// and returns the order in which the objects are to be created.
    pub fn build(&mut self, scope: Scope) -> (order: Vec<Resource>)
        requires
            old(self).wf(),
            build_ready(old(self)@, scope),
        ensures
            final(self).wf(),
            final(self)@ == old(self)@.union(scope.kinds()),
            is_build_of(old(self)@, scope, order@),
    {
        let ghost start = self@;
        let mut order: Vec<Resource> = Vec::new();
        let mut i: usize = 0;
        while i < RESOURCE_KINDS
            invariant
                i <= RESOURCE_KINDS,
                self.wf(),
                build_ready(start, scope),
                self@ == start.union(order@.to_set()),
                build_allowed(start, order@),
                ascending(order@),
                forall|j: int| 0 <= j < order@.len() ==> order@[j].rank() < i,
                forall|kind: Resource|
                    order@.contains(kind) <==> scope.covers(kind) && !start.contains(kind)
                        && kind.rank() < i,
            decreases RESOURCE_KINDS - i,
        {
            if let Some(kind) = Resource::from_index(i) {
                if scope.includes(kind) && !self.alive[i] {
                    let ghost before = order@;
                    proof {
                        assert forall|other: Resource| #[trigger]
                            kind.depends_on(other) implies self@.contains(other) by {
                            lemma_dependencies_rank_lower(kind, other);
                        }
                    }
                    let done = self.create(kind);
                    assert(done);
                    order.push(kind);
                    proof {
                        before.lemma_push_to_set_commute(kind);
                        assert(self@ =~= start.union(order@.to_set()));
                        assert forall|j: int| 0 <= j < order@.len() implies may_create(
                            start.union(order@.take(j).to_set()),
                            #[trigger] order@[j],
                        ) by {
                            if j < before.len() {
                                assert(order@.take(j) =~= before.take(j));
                                assert(order@[j] == before[j]);
                            } else {
                                assert(order@.take(j) =~= before);
                            }
                        }
                        assert forall|other: Resource|
                            order@.contains(other) <==> scope.covers(other) && !start.contains(
                                other,
                            ) && other.rank() < i + 1 by {
                            lemma_rank_is_a_numbering(other);
                            if other == kind {
                                assert(order@[before.len() as int] == kind);
                            }
                            if before.contains(other) {
                                let j = choose|j: int| 0 <= j < before.len() && before[j] == other;
                                assert(order@[j] == other);
                            }
                        }
                    }
                } else {
                    proof {
                        if !start.contains(kind) && self@.contains(kind) {
                            assert(order@.to_set().contains(kind));
                            let j = choose|j: int| 0 <= j < order@.len() && order@[j] == kind;
                            assert(order@[j].rank() < i);
                        }
                        assert forall|other: Resource|
                            order@.contains(other) <==> scope.covers(other) && !start.contains(
                                other,
                            ) && other.rank() < i + 1 by {
                            lemma_rank_is_a_numbering(other);
                        }
                    }
                }
            }
            i = i + 1;
        }
        proof {
            assert forall|kind: Resource|
                order@.contains(kind) <==> scope.covers(kind) && !start.contains(kind) by {
                lemma_rank_is_a_numbering(kind);
            }
            assert(self@ =~= start.union(scope.kinds()));
        }
        order
    }

    /// Destroys, in reverse build order, every living kind of `scope`, and
    /// returns the order in which the objects are to be destroyed.
    pub fn tear_down(&mut self, scope: Scope) -> (order: Vec<Resource>)
        requires
            old(self).wf(),
            teardown_ready(old(self)@, scope),
        ensures
            final(self).wf(),
            final(self)@ == old(self)@.difference(scope.kinds()),
            is_teardown_of(old(self)@, scope, order@),
    {
        let ghost start = self@;
        let mut order: Vec<Resource> = Vec::new();
        let mut i: usize = RESOURCE_KINDS;
        while i > 0
            invariant
                i <= RESOURCE_KINDS,
                self.wf(),
                teardown_ready(start, scope),
                self@ == start.difference(order@.to_set()),
                teardown_allowed(start, order@),
                descending(order@),
                forall|j: int| 0 <= j < order@.len() ==> order@[j].rank() >= i,
                forall|kind: Resource|
                    order@.contains(kind) <==> scope.covers(kind) && start.contains(kind)
                        && kind.rank() >= i,
            decreases i,
        {
            i = i - 1;
            if let Some(kind) = Resource::from_index(i) {
                if scope.includes(kind) && self.alive[i] {
                    let ghost before = order@;
                    proof {
                        assert forall|other: Resource| self@.contains(other) implies !#[trigger]
                            other.depends_on(kind) by {
                            if other.depends_on(kind) {
                                lemma_dependencies_rank_lower(other, kind);
                                assert(before.contains(other));
                            }
                        }
                    }
                    let done = self.destroy(kind);
                    assert(done);
                    order.push(kind);
                    proof {
                        before.lemma_push_to_set_commute(kind);
                        assert(self@ =~= start.difference(order@.to_set()));
                        assert forall|j: int| 0 <= j < order@.len() implies may_destroy(
                            start.difference(order@.take(j).to_set()),
                            #[trigger] order@[j],
                        ) by {
                            if j < before.len() {
                                assert(order@.take(j) =~= before.take(j));
                                assert(order@[j] == before[j]);
                            } else {
                                assert(order@.take(j) =~= before);
                            }
                        }
                        assert forall|other: Resource|
                            order@.contains(other) <==> scope.covers(other) && start.contains(other)
                                && other.rank() >= i by {
                            lemma_rank_is_a_numbering(other);
                            if other == kind {
                                assert(order@[before.len() as int] == kind);
                            }
                            if before.contains(other) {
                                let j = choose|j: int| 0 <= j < before.len() && before[j] == other;
                                assert(order@[j] == other);
                            }
                        }
                    }
                } else {
                    proof {
                        if start.contains(kind) && !self@.contains(kind) {
                            assert(order@.to_set().contains(kind));
                            let j = choose|j: int| 0 <= j < order@.len() && order@[j] == kind;
                            assert(order@[j].rank() >= i + 1);
                        }
                        assert forall|other: Resource|
                            order@.contains(other) <==> scope.covers(other) && start.contains(other)
                                && other.rank() >= i by {
                            lemma_rank_is_a_numbering(other);
                        }
                    }
                }
            }
        }
        proof {
            assert(self@ =~= start.difference(scope.kinds()));
        }
        order
    }

    /// Whether everything that is bound to the swapchain can be replaced:
    /// whatever it is built from, outside itself, is alive.
    pub fn can_rebuild(&self) -> (b: bool)
        requires
            self.wf(),
        ensures
            b == build_ready(self@.difference(Scope::Generation.kinds()), Scope::Generation),
    {
        let ghost base = self@.difference(Scope::Generation.kinds());
        let mut i: usize = 0;
        while i < RESOURCE_KINDS
            invariant
                i <= RESOURCE_KINDS,
                self.wf(),
                base == self@.difference(Scope::Generation.kinds()),
                forall|kind: Resource, other: Resource|
                    kind.rank() < i && kind.in_generation() && #[trigger] kind.depends_on(other)
                        ==> base.contains(other) || other.in_generation(),
            decreases RESOURCE_KINDS - i,
        {
            if let Some(kind) = Resource::from_index(i) {
                if kind.is_swapchain_bound() && self.lacks_dependency(kind, Scope::Generation) {
                    proof {
                        let other = choose|other: Resource| #[trigger]
                            kind.depends_on(other) && !self@.contains(other)
                                && !Scope::Generation.covers(other);
                        assert(!base.contains(kind));
                        assert(kind.depends_on(other) && !base.contains(other));
                    }
                    return false;
                }
            }
            assert forall|kind: Resource, other: Resource|
                kind.rank() < i + 1 && kind.in_generation() && #[trigger] kind.depends_on(
                    other,
                ) implies base.contains(other) || other.in_generation() by {
                lemma_rank_is_a_numbering(kind);
            }
            i = i + 1;
        }
        assert forall|kind: Resource, other: Resource|
            Scope::Generation.covers(kind) && !base.contains(kind) && #[trigger] kind.depends_on(
                other,
            ) implies base.contains(other) || Scope::Generation.covers(other) by {
            lemma_rank_is_a_numbering(kind);
        }
        true
    }

    /// Replaces everything that is bound to the swapchain: returns the order
    /// in which to destroy what there is of it, and the order in which to
    /// create it anew. Nothing else is touched. Where something it is built
    /// from is missing, nothing happens at all.
    pub fn rebuild(&mut self) -> (plans: Option<(Vec<Resource>, Vec<Resource>)>)
        requires
            old(self).wf(),
        ensures
            final(self).wf(),
            plans is Some <==> build_ready(
                old(self)@.difference(Scope::Generation.kinds()),
                Scope::Generation,
            ),
            plans is None ==> final(self)@ == old(self)@,
            plans matches Some(orders) ==> {
                &&& final(self)@ == old(self)@.union(Scope::Generation.kinds())
                &&& is_teardown_of(old(self)@, Scope::Generation, orders.0@)
                &&& is_build_of(
                    old(self)@.difference(Scope::Generation.kinds()),
                    Scope::Generation,
                    orders.1@,
                )
            },
    {
        if !self.can_rebuild() {
            return None;
        }
        proof {
            lemma_teardown_ready(self@, Scope::Generation);
        }
        let down = self.tear_down(Scope::Generation);
        let up = self.build(Scope::Generation);
        proof {
            assert(self@ =~= old(self)@.union(Scope::Generation.kinds()));
        }
        Some((down, up))
    }

    /// Sets the mark of `kind`.
    fn mark(&mut self, kind: Resource, alive: bool)
        requires
            old(self).alive@.len() == RESOURCE_KINDS,
        ensures
            final(self).alive@.len() == RESOURCE_KINDS,
            alive ==> final(self)@ == old(self)@.insert(kind),
            !alive ==> final(self)@ == old(self)@.remove(kind),
    {
        let i = kind.index();
        self.alive.set(i, alive);
        proof {
            assert forall|other: Resource| other != kind implies other.rank() != kind.rank() by {
                lemma_rank_is_a_numbering(other);
                lemma_rank_is_a_numbering(kind);
            }
            if alive {
                assert(self@ =~= old(self)@.insert(kind));
            } else {
                assert(self@ =~= old(self)@.remove(kind));
            }
        }
    }
}

} // verus!
