use frame_pacing::lifecycle::{Resource, ResourceArena, Scope, RESOURCE_KINDS};

fn all_kinds() -> Vec<Resource> {
    (0..RESOURCE_KINDS).map(|i| Resource::from_index(i).unwrap()).collect()
}

#[test]
fn kinds_are_numbered_in_build_order() {
    assert_eq!(RESOURCE_KINDS, 19);
    for (i, kind) in all_kinds().into_iter().enumerate() {
        assert_eq!(kind.index(), i);
    }
    assert_eq!(Resource::from_index(0), Some(Resource::Instance));
    assert_eq!(Resource::from_index(4), Some(Resource::Swapchain));
    assert_eq!(Resource::from_index(18), Some(Resource::SyncObjects));
    assert_eq!(Resource::from_index(19), None);
}

#[test]
fn dependencies_come_earlier_in_the_build_order() {
    for kind in all_kinds() {
        for other in all_kinds() {
            if kind.needs(other) {
                assert!(other.index() < kind.index());
            }
        }
    }
}

#[test]
fn dependencies_are_as_listed() {
    assert!(Resource::ImageViews.needs(Resource::Swapchain));
    assert!(Resource::Framebuffers.needs(Resource::RenderPass));
    assert!(Resource::Framebuffers.needs(Resource::ImageViews));
    assert!(Resource::Pipeline.needs(Resource::RenderPass));
    assert!(Resource::Pipeline.needs(Resource::PipelineLayout));
    assert!(Resource::CommandBuffers.needs(Resource::Framebuffers));
    assert!(Resource::Swapchain.needs(Resource::Surface));
    assert!(Resource::Device.needs(Resource::Instance));
    assert!(!Resource::Instance.needs(Resource::Device));
    assert!(!Resource::Swapchain.needs(Resource::ImageViews));
    assert!(!Resource::RenderPass.needs(Resource::Framebuffers));
}

#[test]
fn generation_is_what_hangs_on_the_swapchain() {
    let bound: Vec<Resource> =
        all_kinds().into_iter().filter(|kind| kind.is_swapchain_bound()).collect();
    assert_eq!(
        bound,
        vec![
            Resource::Swapchain,
            Resource::ImageViews,
            Resource::RenderPass,
            Resource::PipelineLayout,
            Resource::Pipeline,
            Resource::Framebuffers,
            Resource::UniformBuffers,
            Resource::DescriptorPool,
            Resource::DescriptorSets,
            Resource::CommandBuffers,
        ]
    );
    for kind in all_kinds() {
        assert_eq!(Scope::Generation.includes(kind), kind.is_swapchain_bound());
        assert!(Scope::Everything.includes(kind));
        assert_eq!(Scope::Context { validation: true }.includes(kind), !kind.is_swapchain_bound());
    }
    assert!(!Scope::Context { validation: false }.includes(Resource::DebugMessenger));
    assert!(Scope::Context { validation: false }.includes(Resource::Instance));
}

#[test]
fn creation_needs_the_dependencies() {
    let mut arena = ResourceArena::new();
    assert!(!arena.can_create(Resource::Device));
    assert!(!arena.create(Resource::Device));
    assert!(!arena.is_alive(Resource::Device));
    assert!(arena.create(Resource::Instance));
    assert!(!arena.create(Resource::Instance));
    assert!(!arena.create(Resource::Device));
    assert!(arena.create(Resource::Surface));
    assert!(arena.can_create(Resource::Device));
    assert!(arena.create(Resource::Device));
    assert!(arena.is_alive(Resource::Device));
}

#[test]
fn destruction_needs_the_dependents_gone() {
    let mut arena = ResourceArena::new();
    arena.create(Resource::Instance);
    arena.create(Resource::Surface);
    assert!(!arena.can_destroy(Resource::Instance));
    assert!(!arena.destroy(Resource::Instance));
    assert!(arena.is_alive(Resource::Instance));
    assert!(!arena.destroy(Resource::Device));
    assert!(arena.destroy(Resource::Surface));
    assert!(arena.can_destroy(Resource::Instance));
    assert!(arena.destroy(Resource::Instance));
    assert!(!arena.is_alive(Resource::Instance));
}

#[test]
fn everything_is_built_in_order_and_torn_down_in_reverse() {
    let mut arena = ResourceArena::new();
    assert!(arena.can_build(Scope::Everything));
    let built = arena.build(Scope::Everything);
    assert_eq!(built, all_kinds());
    for kind in all_kinds() {
        assert!(arena.is_alive(kind));
    }
    assert!(arena.can_tear_down(Scope::Everything));
    let torn = arena.tear_down(Scope::Everything);
    let mut reversed = all_kinds();
    reversed.reverse();
    assert_eq!(torn, reversed);
    for kind in all_kinds() {
        assert!(!arena.is_alive(kind));
    }
}

#[test]
fn plans_can_be_replayed_step_by_step() {
    let mut planner = ResourceArena::new();
    let context = planner.build(Scope::Context { validation: true });
    let generation = planner.build(Scope::Generation);
    let rebuild_down = planner.tear_down(Scope::Generation);
    let rebuild_up = planner.build(Scope::Generation);
    let everything = planner.tear_down(Scope::Everything);

    let mut arena = ResourceArena::new();
    for kind in context.iter().chain(generation.iter()) {
        assert!(arena.create(*kind));
    }
    for kind in &rebuild_down {
        assert!(arena.destroy(*kind));
    }
    for kind in &rebuild_up {
        assert!(arena.create(*kind));
    }
    for kind in &everything {
        assert!(arena.destroy(*kind));
    }
    for kind in all_kinds() {
        assert!(!arena.is_alive(kind));
    }
}

#[test]
fn generation_cannot_be_built_without_the_context() {
    let mut arena = ResourceArena::new();
    assert!(!arena.can_build(Scope::Generation));
    arena.build(Scope::Context { validation: false });
    assert!(arena.can_build(Scope::Generation));
    assert!(!arena.is_alive(Resource::DebugMessenger));
}

#[test]
fn context_cannot_be_torn_down_under_a_generation() {
    let mut arena = ResourceArena::new();
    arena.build(Scope::Everything);
    assert!(!arena.can_tear_down(Scope::Context { validation: true }));
    assert!(arena.can_tear_down(Scope::Generation));
    let torn = arena.tear_down(Scope::Generation);
    assert_eq!(torn.len(), 10);
    assert_eq!(torn[0], Resource::CommandBuffers);
    assert_eq!(torn[9], Resource::Swapchain);
    assert!(arena.can_tear_down(Scope::Context { validation: true }));
    let rest = arena.tear_down(Scope::Context { validation: true });
    assert_eq!(rest.len(), 9);
    assert_eq!(rest[8], Resource::Instance);
}

#[test]
fn building_twice_creates_nothing_new() {
    let mut arena = ResourceArena::new();
    arena.build(Scope::Everything);
    assert!(arena.build(Scope::Everything).is_empty());
    assert!(arena.build(Scope::Generation).is_empty());
    arena.tear_down(Scope::Everything);
    assert!(arena.tear_down(Scope::Everything).is_empty());
}

#[test]
fn teardown_takes_views_before_swapchain_and_render_pass_last_of_its_set() {
    let mut arena = ResourceArena::new();
    arena.build(Scope::Everything);
    let torn = arena.tear_down(Scope::Generation);
    let at = |kind: Resource| torn.iter().position(|k| *k == kind).unwrap();
    assert!(at(Resource::ImageViews) < at(Resource::Swapchain));
    assert!(at(Resource::Framebuffers) < at(Resource::RenderPass));
    assert!(at(Resource::Pipeline) < at(Resource::PipelineLayout));
    assert!(at(Resource::PipelineLayout) < at(Resource::RenderPass));
    assert!(at(Resource::Framebuffers) < at(Resource::ImageViews));
    assert!(at(Resource::CommandBuffers) < at(Resource::Framebuffers));
}

#[test]
fn rebuild_replaces_the_generation_and_nothing_else() {
    let mut arena = ResourceArena::new();
    arena.build(Scope::Everything);
    assert!(arena.can_rebuild());
    let (down, up) = arena.rebuild().unwrap();
    assert_eq!(down.len(), 10);
    assert_eq!(down[0], Resource::CommandBuffers);
    assert_eq!(down[9], Resource::Swapchain);
    let mut reversed = down.clone();
    reversed.reverse();
    assert_eq!(up, reversed);
    for kind in all_kinds() {
        assert!(arena.is_alive(kind));
    }

    let mut fresh = ResourceArena::new();
    fresh.build(Scope::Context { validation: false });
    let (nothing, all) = fresh.rebuild().unwrap();
    assert!(nothing.is_empty());
    assert_eq!(all, up);
    assert!(!fresh.is_alive(Resource::DebugMessenger));
    assert!(fresh.is_alive(Resource::CommandBuffers));
}

#[test]
fn rebuild_needs_the_context() {
    let mut arena = ResourceArena::new();
    assert!(!arena.can_rebuild());
    assert_eq!(arena.rebuild(), None);
    arena.create(Resource::Instance);
    arena.create(Resource::Surface);
    arena.create(Resource::Device);
    assert_eq!(arena.rebuild(), None);
    assert!(!arena.is_alive(Resource::Swapchain));
    assert!(arena.is_alive(Resource::Device));
}
