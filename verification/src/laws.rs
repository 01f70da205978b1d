//! What holds of the render loop whatever the driver reports: the loop stays
//! well-formed, its cursor is periodic, a slot is never used by two frames at
//! once, no swapchain is built for an empty area, and a swapchain that is
//! rebuilt under unchanged conditions comes out the same.

use crate::constants::MAX_FRAMES_IN_FLIGHT;
use crate::engine::{begin_frame, none_pending, step, EngineModel};
use crate::frame::{FrameAction, FrameEvent, Generation, Phase, WAIT_FOREVER};
use crate::lifecycle::dependencies_alive;
use crate::swapchain::{planned, Extent, SurfaceSupport};
use vstd::prelude::*;

verus! {

/// The start of a frame keeps the loop well-formed.
pub proof fn lemma_begin_frame_keeps_wf(s: EngineModel, elapsed: u32)
    requires
        s.wf(),
    ensures
        begin_frame(s, elapsed).0.wf(),
{
}

/// Every step keeps the loop well-formed.
pub proof fn lemma_step_keeps_wf(s: EngineModel, event: FrameEvent)
    requires
        s.wf(),
    ensures
        step(s, event).0.wf(),
{
    let next = step(s, event).0;
    assert(dependencies_alive(next.alive));
    assert(none_pending(s.sync.drained()));
    assert(none_pending(s.sync.advanced().drained()));
}

/// One thing the embedding program hands to the loop: the start of a frame,
/// or a report.
pub enum Input {
    Draw { elapsed: u32 },
    Report { event: FrameEvent },
}

/// What the loop does with one input.
pub open spec fn advance(s: EngineModel, input: Input) -> (EngineModel, FrameAction) {
    match input {
        Input::Draw { elapsed } => begin_frame(s, elapsed),
        Input::Report { event } => step(s, event),
    }
}

/// The loop after it has been handed the inputs of `inputs` one after the
/// other.
pub open spec fn run(s: EngineModel, inputs: Seq<Input>) -> EngineModel
    decreases inputs.len(),
{
    if inputs.len() == 0 {
        s
    } else {
        advance(run(s, inputs.drop_last()), inputs.last()).0
    }
}

/// Whatever the loop is handed, in whatever order, it stays well-formed.
pub proof fn lemma_run_keeps_wf(s: EngineModel, inputs: Seq<Input>)
    requires
        s.wf(),
    ensures
        run(s, inputs).wf(),
    decreases inputs.len(),
{
    if inputs.len() > 0 {
        lemma_run_keeps_wf(s, inputs.drop_last());
        let before = run(s, inputs.drop_last());
        match inputs.last() {
            Input::Draw { elapsed } => lemma_begin_frame_keeps_wf(before, elapsed),
            Input::Report { event } => lemma_step_keeps_wf(before, event),
        }
    }
}

/// At no point of any run are two frames in flight on one slot: whenever the
/// loop asks for a submission, it is with a slot on which no frame is in
/// flight, and whenever it asks for an image to be acquired, the fence of the
/// slot has been waited for.
pub proof fn lemma_no_slot_is_shared(s: EngineModel, earlier: Seq<Input>, input: Input)
    requires
        s.wf(),
    ensures
        advance(run(s, earlier), input).1 matches FrameAction::Submit { slot, .. } ==> !run(
            s,
            earlier,
        ).sync.pending[slot as int],
        advance(run(s, earlier), input).1 matches FrameAction::Acquire { slot, .. } ==> !advance(
            run(s, earlier),
            input,
        ).0.sync.pending[slot as int],
{
    lemma_run_keeps_wf(s, earlier);
}

/// At no point of any run is a swapchain asked for with an extent that has no
/// area, and a report of an empty drawable area never leads to one.
pub proof fn lemma_no_build_without_area(s: EngineModel, earlier: Seq<Input>, input: Input)
    requires
        s.wf(),
    ensures
        advance(run(s, earlier), input).1 matches FrameAction::Build { config }
            ==> !config.extent.has_no_area(),
        input matches Input::Report { event: FrameEvent::SurfaceReport { drawable, .. } }
            && drawable.has_no_area() ==> !(advance(run(s, earlier), input).1 is Build)
            && advance(run(s, earlier), input).0 == run(s, earlier),
{
    lemma_run_keeps_wf(s, earlier);
}

/// The loop after one frame that went through without trouble: the frame was
/// started with the time `elapsed`, the driver handed out image `image_index`,
/// took the submission, and presented the image.
pub open spec fn frame_drawn(s: EngineModel, elapsed: u32, image_index: u32) -> EngineModel {
    let acquiring = begin_frame(s, elapsed).0;
    let submitting = step(acquiring, FrameEvent::Acquired { image_index, suboptimal: false }).0;
    let presenting = step(submitting, FrameEvent::Submitted).0;
    step(presenting, FrameEvent::Presented { suboptimal: false }).0
}

/// The loop after the frames of `frames`, each a time and an image, have gone
/// through without trouble one after the other.
pub open spec fn frames_drawn(s: EngineModel, frames: Seq<(u32, u32)>) -> EngineModel
    decreases frames.len(),
{
    if frames.len() == 0 {
        s
    } else {
        frame_drawn(frames_drawn(s, frames.drop_last()), frames.last().0, frames.last().1)
    }
}

/// A frame that goes through without trouble leaves the loop between two
/// frames again, with the same swapchain and the same objects, and the cursor
/// one slot further.
pub proof fn lemma_frame_drawn(s: EngineModel, elapsed: u32, image_index: u32)
    requires
        s.wf(),
        s.phase == Phase::Idle,
        image_index < s.image_count,
    ensures
        frame_drawn(s, elapsed, image_index).wf(),
        frame_drawn(s, elapsed, image_index).phase == Phase::Idle,
        frame_drawn(s, elapsed, image_index).sync.current_frame == (s.sync.current_frame + 1) % (
        MAX_FRAMES_IN_FLIGHT as nat),
        frame_drawn(s, elapsed, image_index).swapchain == s.swapchain,
        frame_drawn(s, elapsed, image_index).image_count == s.image_count,
        frame_drawn(s, elapsed, image_index).alive == s.alive,
        frame_drawn(s, elapsed, image_index).windows == s.windows,
{
}

/// After any number of frames that went through without trouble, the cursor
/// stands that many slots further round the ring.
pub proof fn lemma_cursor_follows_frames(s: EngineModel, frames: Seq<(u32, u32)>)
    requires
        s.wf(),
        s.phase == Phase::Idle,
        forall|i: int| 0 <= i < frames.len() ==> (#[trigger] frames[i]).1 < s.image_count,
    ensures
        frames_drawn(s, frames).wf(),
        frames_drawn(s, frames).phase == Phase::Idle,
        frames_drawn(s, frames).image_count == s.image_count,
        frames_drawn(s, frames).sync.current_frame == (s.sync.current_frame + frames.len()) % (
        MAX_FRAMES_IN_FLIGHT as nat),
    decreases frames.len(),
{
    if frames.len() > 0 {
        let before = frames.drop_last();
        assert forall|i: int| 0 <= i < before.len() implies (#[trigger] before[i]).1
            < s.image_count by {
            assert(before[i] == frames[i]);
        }
        lemma_cursor_follows_frames(s, before);
        lemma_frame_drawn(frames_drawn(s, before), frames.last().0, frames.last().1);
    }
}

/// The frame cursor is periodic: after as many successful frames as there are
/// slots, it is back at the slot it started from, and one frame earlier it
/// was not.
pub proof fn lemma_cursor_returns(s: EngineModel, frames: Seq<(u32, u32)>)
    requires
        s.wf(),
        s.phase == Phase::Idle,
        frames.len() == MAX_FRAMES_IN_FLIGHT,
        forall|i: int| 0 <= i < frames.len() ==> (#[trigger] frames[i]).1 < s.image_count,
    ensures
        frames_drawn(s, frames).sync.current_frame == s.sync.current_frame,
        frames_drawn(s, frames.drop_last()).sync.current_frame != s.sync.current_frame,
{
    lemma_cursor_follows_frames(s, frames);
    let before = frames.drop_last();
    assert forall|i: int| 0 <= i < before.len() implies (#[trigger] before[i]).1
        < s.image_count by {
        assert(before[i] == frames[i]);
    }
    lemma_cursor_follows_frames(s, before);
}

/// A frame is submitted only with the slot in use, and only while no frame
/// submitted with that slot is still in flight; from then on that frame is.
pub proof fn lemma_submit_takes_a_free_slot(s: EngineModel, event: FrameEvent)
    requires
        s.wf(),
    ensures
        step(s, event).1 matches FrameAction::Submit { slot, .. } ==> {
            &&& slot == s.sync.current_frame
            &&& !s.sync.pending[slot as int]
            &&& step(s, event).0.sync.pending[slot as int]
        },
{
}

/// The uses of a slot follow one another. A slot's fence becomes pending by a
/// submission with that slot and by nothing else. It stops being pending only
/// when a frame starts on that slot, which waits for the fence, or when the
/// device goes idle because the swapchain is torn down or the loop stops.
pub proof fn lemma_slots_are_used_in_turn(s: EngineModel, event: FrameEvent, elapsed: u32, slot: int)
    requires
        s.wf(),
        0 <= slot < MAX_FRAMES_IN_FLIGHT,
    ensures
        !s.sync.pending[slot] && step(s, event).0.sync.pending[slot] ==> step(s, event).1
            == (FrameAction::Submit {
            slot: slot as usize,
            image_index: step(s, event).1->Submit_image_index,
            elapsed: s.elapsed,
            wait_stage: crate::codes::color_attachment_output_stage(),
        }),
        s.sync.pending[slot] && !step(s, event).0.sync.pending[slot] ==> step(s, event).1
            is TearDown || step(s, event).1 is Abort,
        !s.sync.pending[slot] ==> !begin_frame(s, elapsed).0.sync.pending[slot],
        s.sync.pending[slot] && !begin_frame(s, elapsed).0.sync.pending[slot] ==> begin_frame(
            s,
            elapsed,
        ).1 == (FrameAction::Acquire { slot: slot as usize, timeout: u64::MAX }),
        begin_frame(s, elapsed).1 matches FrameAction::Acquire { slot: used, .. } ==> !begin_frame(
            s,
            elapsed,
        ).0.sync.pending[used as int],
{
}

/// The loop as it stands before it is handed input `k` of `inputs`.
pub open spec fn state_before(s: EngineModel, inputs: Seq<Input>, k: int) -> EngineModel {
    run(s, inputs.take(k))
}

/// The action with which the loop answers input `k` of `inputs`.
pub open spec fn answer(s: EngineModel, inputs: Seq<Input>, k: int) -> FrameAction {
    advance(state_before(s, inputs, k), inputs[k]).1
}

/// Whether the action makes sure that no frame is in flight on `slot`: it
/// waits for the fence of the slot, or for the whole device.
pub open spec fn frees(action: FrameAction, slot: int) -> bool {
    ||| action == (FrameAction::Acquire { slot: slot as usize, timeout: WAIT_FOREVER })
    ||| action is TearDown
    ||| action is Abort
}

/// The loop before input `k + 1` is the loop before input `k`, advanced by
/// input `k`.
proof fn lemma_state_unfolds(s: EngineModel, inputs: Seq<Input>, k: int)
    requires
        0 <= k < inputs.len(),
    ensures
        state_before(s, inputs, k + 1) == advance(state_before(s, inputs, k), inputs[k]).0,
{
    assert(inputs.take(k + 1).drop_last() =~= inputs.take(k));
    assert(inputs.take(k + 1).last() == inputs[k]);
}

/// A fence that is pending at one point of a run and not at a later one has
/// been waited for in between.
proof fn lemma_freed_in_between(
    s: EngineModel,
    inputs: Seq<Input>,
    slot: int,
    from: int,
    to: int,
)
    requires
        s.wf(),
        0 <= slot < MAX_FRAMES_IN_FLIGHT,
        0 <= from <= to <= inputs.len(),
        state_before(s, inputs, from).sync.pending[slot],
        !state_before(s, inputs, to).sync.pending[slot],
    ensures
        exists|k: int| from <= k < to && frees(#[trigger] answer(s, inputs, k), slot),
    decreases to - from,
{
    let last = to - 1;
    let before = state_before(s, inputs, last);
    lemma_run_keeps_wf(s, inputs.take(last));
    lemma_state_unfolds(s, inputs, last);
    if before.sync.pending[slot] {
        match inputs[last] {
            Input::Draw { elapsed } => {
                lemma_slots_are_used_in_turn(
                    before,
                    FrameEvent::Submitted,
                    elapsed,
                    slot,
                );
            },
            Input::Report { event } => {
                lemma_slots_are_used_in_turn(before, event, 0, slot);
            },
        }
        assert(frees(answer(s, inputs, last), slot));
    } else {
        lemma_freed_in_between(s, inputs, slot, from, last);
    }
}

/// The uses of a slot are strictly sequential: between any two submissions
/// with the same slot, in any run, the loop has waited for the fence of that
/// slot or for the whole device.
pub proof fn lemma_slot_is_waited_for_between_submissions(
    s: EngineModel,
    inputs: Seq<Input>,
    first: int,
    second: int,
)
    requires
        s.wf(),
        0 <= first < second < inputs.len(),
        answer(s, inputs, first) is Submit,
        answer(s, inputs, second) is Submit,
        answer(s, inputs, first)->Submit_slot == answer(s, inputs, second)->Submit_slot,
    ensures
        exists|k: int|
            first < k < second && frees(
                #[trigger] answer(s, inputs, k),
                answer(s, inputs, first)->Submit_slot as int,
            ),
{
    let slot = answer(s, inputs, first)->Submit_slot as int;
    lemma_run_keeps_wf(s, inputs.take(first));
    lemma_run_keeps_wf(s, inputs.take(second));
    lemma_state_unfolds(s, inputs, first);
    match inputs[first] {
        Input::Draw { .. } => {},
        Input::Report { event } => {
            lemma_submit_takes_a_free_slot(state_before(s, inputs, first), event);
        },
    }
    match inputs[second] {
        Input::Draw { .. } => {},
        Input::Report { event } => {
            lemma_submit_takes_a_free_slot(state_before(s, inputs, second), event);
        },
    }
    lemma_freed_in_between(s, inputs, slot, first + 1, second);
}

/// While the drawable area is empty no swapchain is asked for: a report of
/// such a surface changes nothing, and where the loop is waiting for a
/// surface it goes on waiting.
pub proof fn lemma_empty_area_stalls(s: EngineModel, support: SurfaceSupport, drawable: Extent)
    requires
        s.wf(),
        drawable.has_no_area(),
    ensures
        step(s, FrameEvent::SurfaceReport { support, drawable }).0 == s,
        !(step(s, FrameEvent::SurfaceReport { support, drawable }).1 is Build),
        s.phase == (Phase::RecreateSwapchain { planned: None }) ==> step(
            s,
            FrameEvent::SurfaceReport { support, drawable },
        ).1 == FrameAction::AwaitSize,
{
}

/// A swapchain is asked for only with an extent that has an area.
pub proof fn lemma_build_has_area(s: EngineModel, event: FrameEvent)
    requires
        s.wf(),
    ensures
        step(s, event).1 matches FrameAction::Build { config } ==> !config.extent.has_no_area(),
{
}

/// Recreating the swapchain for a surface that reports what it reported when
/// the swapchain in use was planned, with a drawable area of the same size,
/// leads to a swapchain with the same format, extent, present mode and image
/// count.
pub proof fn lemma_recreation_keeps_swapchain(
    s: EngineModel,
    support: SurfaceSupport,
    drawable: Extent,
    built: Generation,
)
    requires
        s.wf(),
        s.swapchain is Some,
        planned(support.capabilities, support.formats@, support.present_modes@, drawable) == Ok::<
            _,
            crate::swapchain::SwapchainError,
        >(s.swapchain->Some_0),
        built.images > 0,
        built.one_per_image(),
    ensures
        ({
            let torn = s.recreating();
            let building = step(torn, FrameEvent::SurfaceReport { support, drawable });
            let rebuilt = step(building.0, FrameEvent::Built { built });
            &&& building.1 == FrameAction::Build { config: s.swapchain->Some_0 }
            &&& rebuilt.0.swapchain == s.swapchain
            &&& rebuilt.0.phase == Phase::Idle
            &&& rebuilt.0.alive == s.alive
        }),
{
    let torn = s.recreating();
    let building = step(torn, FrameEvent::SurfaceReport { support, drawable });
    let rebuilt = step(building.0, FrameEvent::Built { built });
    assert(rebuilt.0.alive =~= s.alive);
}

/// What was built for a swapchain is taken into use only if there is an image
/// view, a frame target, a uniform buffer, a descriptor set and a command
/// buffer for each image, and at least one image; the loop then counts that
/// many images.
pub proof fn lemma_in_use_means_one_per_image(s: EngineModel, built: Generation)
    requires
        s.wf(),
        s.phase is RecreateSwapchain,
    ensures
        step(s, FrameEvent::Built { built }).0.phase == Phase::Idle ==> {
            &&& built.one_per_image()
            &&& built.images > 0
            &&& step(s, FrameEvent::Built { built }).0.image_count == built.images
        },
{
}

} // verus!
