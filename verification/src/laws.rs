//! What holds of every lifecycle: the invariant and its consequences.
//!
//! The lemmas speak of [`Lifecycle::after`], the transition that
//! [`crate::lifecycle::LifecycleManager::step`] makes, and of
//! [`Lifecycle::wf`], the invariant that every manager meets.

use vstd::prelude::*;
use crate::handle::{BufferState, Config};
use crate::lifecycle::{blames, error_of, Failure, Lifecycle, Stage};
use crate::protocol::{Action, Call, Event, Resource};
use crate::script::{
    creating_calls, destroying_calls, forward_done, lemma_destroyed_iff_created,
    lemma_nothing_built_after_failure, lemma_owned_after, lemma_script_begins_forward,
    lemma_script_index, lemma_script_no_duplicates, lemma_script_table,
    lemma_successful_run_creates_in_order, lemma_successful_run_destroys_in_reverse,
    lemma_teardown_mirrors_creation, owned_after, script, teardown_of,
};
use crate::selector::selection_of;

verus! {

/// A run begins in a state that meets the invariant.
pub proof fn lemma_initial_wf(config: Config)
    ensures
        Lifecycle::initial(config).wf(),
        Lifecycle::initial(config).stage() == Stage::Unstarted,
        Lifecycle::initial(config).history() == seq![Call::Load],
{
    let state = Lifecycle::initial(config);
    lemma_position(state);
    lemma_script_table(None);
    assert(state.history() =~= seq![Call::Load]);
}

/// Every answer of the driver leaves the invariant in place.
pub proof fn lemma_after_preserves_wf(state: Lifecycle, event: Event)
    requires
        state.wf(),
    ensures
        state.after(event).wf(),
{
}

/// The pending call stands in the run at the place that
/// [`Lifecycle::position`] computes.
pub proof fn lemma_position(state: Lifecycle)
    requires
        state.wf(),
    ensures
        0 <= state.position() < state.run().len(),
        state.run()[state.position()] == state.pending.call(),
        state.run().index_of(state.pending.call()) == state.position(),
        state.is_finished() <==> state.position() + 1 == state.run().len(),
{
    let failed = state.failed_call();
    lemma_owned_after(forward_done(failed));
    lemma_script_table(failed);
    assert(state.run()[state.position()] == state.pending.call());
    lemma_script_index(failed, state.position());
}

/// Every answer of the driver, until the run is over, moves the lifecycle
/// one place on in its run; a failure changes the run only from that place
/// on.
pub proof fn lemma_after_advances(state: Lifecycle, event: Event)
    requires
        state.wf(),
        !state.is_finished(),
    ensures
        state.after(event).position() == state.position() + 1,
        state.after(event).run().take(state.position() + 1) == state.run().take(
            state.position() + 1,
        ),
{
    let next = state.after(event);
    lemma_after_preserves_wf(state, event);
    lemma_owned_after(forward_done(state.failed_call()));
    lemma_owned_after(forward_done(next.failed_call()));
    assert(next.position() == state.position() + 1);
    if next.failed_call() != state.failed_call() {
        let at = state.position();
        assert(next.failed_call() == Some(state.pending.call()));
        assert(at == state.pending.call().ordinal());
        lemma_script_begins_forward(next.failed_call(), at + 1);
        lemma_script_begins_forward(state.failed_call(), at + 1);
    }
}

/// The calls made so far end with the pending call, and they are the whole
/// run exactly when the run is over.
pub proof fn lemma_history_ends_with_pending(state: Lifecycle)
    requires
        state.wf(),
    ensures
        state.run().contains(state.pending.call()),
        state.history().len() == state.position() + 1,
        state.history().last() == state.pending.call(),
        state.history().is_prefix_of(state.run()),
        state.is_finished() <==> state.history() == state.run(),
{
    lemma_position(state);
    if state.history() == state.run() {
        assert(state.history().len() == state.run().len());
    }
    if state.is_finished() {
        assert(state.history() =~= state.run());
    }
}

/// Every answer of the driver, until the run is over, adds one call to the
/// calls made so far: the call that is pending afterwards.
pub proof fn lemma_after_extends_history(state: Lifecycle, event: Event)
    requires
        state.wf(),
        !state.is_finished(),
    ensures
        state.after(event).history() == state.history().push(state.after(event).pending.call()),
{
    let next = state.after(event);
    let at = state.position();
    lemma_after_preserves_wf(state, event);
    lemma_position(state);
    lemma_position(next);
    lemma_after_advances(state, event);
    assert(next.run().take(at + 2) =~= next.run().take(at + 1).push(next.run()[at + 1]));
}

/// Teardown is safe at every step: a resource is destroyed while its parent
/// still exists and after its child is gone, and when the run is over
/// nothing is held.
pub proof fn lemma_teardown_is_safe(state: Lifecycle)
    requires
        state.wf(),
    ensures
        state.pending.call() == Call::DestroyCommandPool ==> state.pool is None && state.device
            is Some && state.instance is Some,
        state.pending.call() == Call::DestroyDevice ==> state.pool is None && state.device is None
            && state.instance is Some,
        state.pending.call() == Call::DestroyInstance ==> state.pool is None && state.device
            is None && state.instance is None,
        state.is_finished() ==> state.pool is None && state.buffer is None && state.device is None
            && state.queue is None && state.instance is None,
{
}

/// A destroying call names the handle that the lifecycle held, and a handle
/// leaves the lifecycle only by the call that destroys it.
pub proof fn lemma_destroys_what_was_held(state: Lifecycle, event: Event)
    requires
        state.wf(),
        !state.is_finished(),
    ensures
        ({
            let next = state.after(event);
            &&& state.pool is Some && next.pool is None <==> next.pending.call()
                == Call::DestroyCommandPool
            &&& state.device is Some && next.device is None <==> next.pending.call()
                == Call::DestroyDevice
            &&& state.instance is Some && next.instance is None <==> next.pending.call()
                == Call::DestroyInstance
            &&& next.pending matches Action::DestroyCommandPool { device, pool } ==> state.pool.unwrap().raw
                == pool && state.device.unwrap().raw == device
            &&& next.pending matches Action::DestroyDevice { device } ==> state.device.unwrap().raw
                == device
            &&& next.pending matches Action::DestroyInstance { instance }
                ==> state.instance.unwrap().raw == instance
            &&& state.pool is Some && next.pool is Some ==> next.pool == state.pool
            &&& state.device is Some && next.device is Some ==> next.device == state.device
            &&& state.instance is Some && next.instance is Some ==> next.instance == state.instance
        }),
{
}

/// Stages only move forward: an answer leaves the stage where it is or moves
/// it to the next one, unless it is the failure of a forward call, which
/// moves it to `Failed`; and `Failed` is never left.
pub proof fn lemma_stage_moves_forward(state: Lifecycle, event: Event)
    requires
        state.wf(),
    ensures
        state.after(event).stage() == Stage::Failed <==> state.stage() == Stage::Failed || (
        state.pending.call().is_forward() && state.accept(event) is None),
        state.after(event).stage() != Stage::Failed ==> state.stage().order() <= state.after(
            event,
        ).stage().order() <= state.stage().order() + 1,
{
}

/// The end of a run reports what ended building: the error of the failure,
/// or none.
pub proof fn lemma_finish_reports_the_failure(state: Lifecycle)
    requires
        state.wf(),
        state.is_finished(),
    ensures
        state.pending == (Action::Finish {
            error: match state.failure {
                Some(failure) => Some(failure.error),
                None => None,
            },
        }),
        state.stage() == (if state.failure is Some {
            Stage::Failed
        } else {
            Stage::Destroyed
        }),
{
}

/// Once building is over, by success or by failure, it stays over: every call
/// from then on destroys or ends the run, the failure stays what it is, and
/// no handle comes into being. So nothing is created after a failure, and
/// what was destroyed is not destroyed again.
pub proof fn lemma_teardown_is_final(state: Lifecycle, event: Event)
    requires
        state.wf(),
        !state.pending.call().is_forward(),
    ensures
        !state.after(event).pending.call().is_forward(),
        state.after(event).failure == state.failure,
        state.after(event).instance is Some ==> state.instance is Some,
        state.after(event).device is Some ==> state.device is Some,
        state.after(event).queue is Some ==> state.queue is Some,
        state.after(event).pool is Some ==> state.pool is Some,
        state.after(event).buffer is Some ==> state.buffer is Some,
{
}

/// A forward call fails on every answer but its own, with the error of its
/// kind; on its own answer it does not fail. Enumeration fails with
/// `NoSuitableDevice`, and with nothing else, also on a list from which no
/// selection can be made.
pub proof fn lemma_failure_kinds(state: Lifecycle, event: Event)
    requires
        state.wf(),
        state.pending.call().is_forward(),
    ensures
        state.after(event).failure == (if state.accept(event) is Some {
            None
        } else {
            Some(Failure { call: state.pending.call(), error: error_of(state.pending.call(), event) })
        }),
        blames(error_of(state.pending.call(), event), state.pending.call()),
        state.pending.call() == Call::EnumerateDevices ==> (match event {
            Event::DevicesEnumerated { devices } => state.accept(event) is Some <==> selection_of(
                devices@,
            ) is Ok,
            _ => state.accept(event) is None,
        }),
        state.pending.call() == Call::EnumerateDevices && state.accept(event) is None ==> error_of(
            state.pending.call(),
            event,
        ) is NoSuitableDevice,
{
}

/// The unit of work is complete only once the queue has reported idle: the
/// stage becomes `Ready` on that answer to the wait, and on nothing else.
pub proof fn lemma_ready_only_after_idle(state: Lifecycle, event: Event)
    requires
        state.wf(),
        state.stage() != Stage::Ready,
        state.after(event).stage() == Stage::Ready,
    ensures
        state.pending.call() == Call::WaitIdle,
        event is QueueIdle,
        state.stage() == Stage::Allocated,
{
}

/// A unit of work whose every call the driver accepts, an empty recording
/// included, runs to completion without error: from the begin of recording
/// the five answers lead to `Ready`, through `Allocated` all the way, and the
/// command buffer ends up used up.
pub proof fn lemma_submit_once_completes(state: Lifecycle)
    requires
        state.wf(),
        state.pending.call() == Call::BeginRecording,
    ensures
        ({
            let begun = state.after(Event::RecordingBegun);
            let recorded = begun.after(Event::Recorded);
            let ended = recorded.after(Event::RecordingEnded);
            let submitted = ended.after(Event::Submitted);
            let idle = submitted.after(Event::QueueIdle);
            &&& begun.stage() == Stage::Allocated && begun.pending.call() == Call::Record
            &&& recorded.stage() == Stage::Allocated && recorded.pending.call()
                == Call::EndRecording
            &&& ended.stage() == Stage::Allocated && ended.pending.call() == Call::Submit
            &&& submitted.stage() == Stage::Allocated && submitted.pending.call() == Call::WaitIdle
            &&& begun.buffer.unwrap().state == BufferState::Recording
            &&& recorded.buffer.unwrap().state == BufferState::Recording
            &&& ended.buffer.unwrap().state == BufferState::Executable
            &&& submitted.buffer.unwrap().state == BufferState::Pending
            &&& idle.stage() == Stage::Ready
            &&& idle.failure is None
        }),
{
    let begun = state.after(Event::RecordingBegun);
    assert(begun.wf() && begun.pending.call() == Call::Record && begun.failure is None) by {
        lemma_after_preserves_wf(state, Event::RecordingBegun);
    }
    let recorded = begun.after(Event::Recorded);
    assert(recorded.wf() && recorded.pending.call() == Call::EndRecording && recorded.failure
        is None) by {
        lemma_after_preserves_wf(begun, Event::Recorded);
    }
    let ended = recorded.after(Event::RecordingEnded);
    assert(ended.wf() && ended.pending.call() == Call::Submit && ended.failure is None) by {
        lemma_after_preserves_wf(recorded, Event::RecordingEnded);
    }
    let submitted = ended.after(Event::Submitted);
    assert(submitted.wf() && submitted.pending.call() == Call::WaitIdle && submitted.failure
        is None) by {
        lemma_after_preserves_wf(ended, Event::Submitted);
    }
}

impl Lifecycle {
    /// The state after the driver's answers `events`, one after the other.
    pub open spec fn after_all(self, events: Seq<Event>) -> Lifecycle
        decreases events.len(),
    {
        if events.len() == 0 {
            self
        } else {
            self.after_all(events.drop_last()).after(events.last())
        }
    }

    /// The calls that the lifecycle hands out in answer to `events`: one for
    /// each answer that comes before the run is over.
    pub open spec fn handed_out(self, events: Seq<Event>) -> Seq<Call>
        decreases events.len(),
    {
        if events.len() == 0 {
            Seq::empty()
        } else {
            let before = self.after_all(events.drop_last());
            if before.is_finished() {
                self.handed_out(events.drop_last())
            } else {
                self.handed_out(events.drop_last()).push(
                    before.after(events.last()).pending.call(),
                )
            }
        }
    }
}

/// Whatever the driver answers, and however often, the invariant holds, and
/// the calls made so far are the calls that were made before and the calls
/// handed out since, in that order.
pub proof fn lemma_history_is_what_was_handed_out(state: Lifecycle, events: Seq<Event>)
    requires
        state.wf(),
    ensures
        state.after_all(events).wf(),
        state.after_all(events).history() == state.history() + state.handed_out(events),
    decreases events.len(),
{
    if events.len() == 0 {
        assert(state.history() + Seq::<Call>::empty() =~= state.history());
    } else {
        let before = state.after_all(events.drop_last());
        lemma_history_is_what_was_handed_out(state, events.drop_last());
        lemma_after_preserves_wf(before, events.last());
        if !before.is_finished() {
            lemma_after_extends_history(before, events.last());
            let call = before.after(events.last()).pending.call();
            assert((state.history() + state.handed_out(events.drop_last())).push(call)
                =~= state.history() + state.handed_out(events.drop_last()).push(call));
        }
    }
}

/// The calls that a caller observes in a run from the beginning: the first
/// call, and those handed out in answer to `events`.
pub open spec fn observed_calls(config: Config, events: Seq<Event>) -> Seq<Call> {
    seq![Call::Load] + Lifecycle::initial(config).handed_out(events)
}

/// Every run that ends was the run of the script: the calls observed from
/// the first to the last are, in a run that succeeds, the whole pipeline and
/// its teardown, and in a run that fails, the pipeline up to the call that
/// failed and the teardown of what had been created.
pub proof fn lemma_finished_run_follows_script(config: Config, events: Seq<Event>)
    requires
        Lifecycle::initial(config).after_all(events).is_finished(),
    ensures
        ({
            let end = Lifecycle::initial(config).after_all(events);
            &&& end.wf()
            &&& observed_calls(config, events) == script(end.failed_call())
            &&& end.failed_call() matches Some(call) ==> call.is_forward()
        }),
{
    let start = Lifecycle::initial(config);
    lemma_initial_wf(config);
    lemma_history_is_what_was_handed_out(start, events);
    lemma_history_ends_with_pending(start.after_all(events));
}

/// In every run that succeeds, whatever the driver answered along the way,
/// the creating calls observed are instance, device, command pool, command
/// buffer, in that order, and the destroying calls observed are command pool,
/// device, instance: the reverse.
pub proof fn lemma_successful_run_order(config: Config, events: Seq<Event>)
    requires
        Lifecycle::initial(config).after_all(events).is_finished(),
        Lifecycle::initial(config).after_all(events).failure is None,
    ensures
        creating_calls(observed_calls(config, events)) == seq![
            Call::CreateInstance,
            Call::CreateDevice,
            Call::CreateCommandPool,
            Call::AllocateCommandBuffer,
        ],
        destroying_calls(observed_calls(config, events)) == seq![
            Call::DestroyCommandPool,
            Call::DestroyDevice,
            Call::DestroyInstance,
        ],
        observed_calls(config, events).no_duplicates(),
{
    lemma_finished_run_follows_script(config, events);
    lemma_successful_run_creates_in_order();
    lemma_successful_run_destroys_in_reverse();
    lemma_script_no_duplicates(None);
}

/// In every run that fails, at whatever call, the calls observed build up to
/// the call that failed and no further; every owned resource created before
/// that call is destroyed, once, children before parents; nothing else is
/// destroyed; and the error is of the kind of the call that failed.
pub proof fn lemma_failed_run_cleans_up(config: Config, events: Seq<Event>)
    requires
        Lifecycle::initial(config).after_all(events).is_finished(),
        Lifecycle::initial(config).after_all(events).failure is Some,
    ensures
        ({
            let failure = Lifecycle::initial(config).after_all(events).failure.unwrap();
            let calls = observed_calls(config, events);
            &&& failure.call.is_forward()
            &&& blames(failure.error, failure.call)
            &&& calls.no_duplicates()
            &&& forall|later: Call|
                later.is_forward() && failure.call.ordinal() < later.ordinal() ==> !calls.contains(
                    later,
                )
            &&& forall|resource: Resource|
                calls.contains(#[trigger] resource.destroyer()) <==> resource.creator().ordinal()
                    < failure.call.ordinal()
            &&& destroying_calls(calls) == teardown_of(owned_after(failure.call.ordinal()))
        }),
{
    let end = Lifecycle::initial(config).after_all(events);
    let failure = end.failure.unwrap();
    let failed = Some(failure.call);
    let calls = observed_calls(config, events);
    lemma_finished_run_follows_script(config, events);
    lemma_script_no_duplicates(failed);
    lemma_teardown_mirrors_creation(failed);
    assert forall|later: Call|
        later.is_forward() && failure.call.ordinal() < later.ordinal() implies !calls.contains(
        later,
    ) by {
        lemma_nothing_built_after_failure(failure.call, later);
    }
    assert forall|resource: Resource|
        calls.contains(#[trigger] resource.destroyer()) <==> resource.creator().ordinal()
            < failure.call.ordinal() by {
        lemma_destroyed_iff_created(failed, resource);
        lemma_owned_after(failure.call.ordinal());
        if resource.creator().ordinal() < failure.call.ordinal() {
            let depth = match resource {
                Resource::Instance => 0int,
                Resource::Device => 1int,
                Resource::CommandPool => 2int,
            };
            assert(owned_after(failure.call.ordinal())[depth] == resource);
        }
    }
}

} // verus!
