//! The order in which a run makes its calls.
//!
//! A run is one pass through the pipeline: calls that build, from the loader
//! to the wait for the queue, then calls that destroy what was built, then
//! the end. A run that fails stops building at the call that failed and
//! destroys what the calls before it had built. [`script`] gives the whole
//! sequence for each of the twelve ways a run can go, and the lemmas say
//! what holds of every one of them.

use vstd::prelude::*;
use crate::protocol::{Call, Resource};

verus! {

/// The calls that build, in order.
pub open spec fn forward_calls() -> Seq<Call> {
    seq![
        Call::Load,
        Call::CreateInstance,
        Call::EnumerateDevices,
        Call::CreateDevice,
        Call::CreateCommandPool,
        Call::AllocateCommandBuffer,
        Call::BeginRecording,
        Call::Record,
        Call::EndRecording,
        Call::Submit,
        Call::WaitIdle,
    ]
}

/// The owned resources, each before its children.
pub open spec fn ownership_chain() -> Seq<Resource> {
    seq![Resource::Instance, Resource::Device, Resource::CommandPool]
}

/// The owned resources that exist once the first `done` forward calls have
/// succeeded, each before its children.
#[verifier::opaque]
pub open spec fn owned_after(done: int) -> Seq<Resource> {
    ownership_chain().filter(|r: Resource| r.creator().ordinal() < done)
}

/// The calls that destroy `owned`, children first.
pub open spec fn teardown_of(owned: Seq<Resource>) -> Seq<Call> {
    owned.reverse().map_values(|r: Resource| r.destroyer())
}

/// Number of forward calls that a run makes: all of them, or those up to the
/// one that fails.
pub open spec fn forward_issued(failed: Option<Call>) -> int {
    match failed {
        Some(call) => call.ordinal() + 1,
        None => forward_calls().len() as int,
    }
}

/// Number of forward calls that succeed in a run.
pub open spec fn forward_done(failed: Option<Call>) -> int {
    match failed {
        Some(call) => call.ordinal(),
        None => forward_calls().len() as int,
    }
}

/// The whole sequence of calls of a run in which `failed` is the forward call
/// that fails, or in which none does: the forward calls as far as the run
/// gets, the teardown of what they built, and the end.
#[verifier::opaque]
pub open spec fn script(failed: Option<Call>) -> Seq<Call> {
    forward_calls().take(forward_issued(failed)) + teardown_of(owned_after(forward_done(failed)))
        + seq![Call::Finish]
}

/// The calls among `calls` that create an owned resource or the command
/// buffer, in their order.
pub open spec fn creating_calls(calls: Seq<Call>) -> Seq<Call> {
    calls.filter(|call: Call| call.builds())
}

/// The calls among `calls` that destroy an owned resource, in their order.
pub open spec fn destroying_calls(calls: Seq<Call>) -> Seq<Call> {
    calls.filter(|call: Call| call.is_teardown())
}

/// The owned resources by the number of forward calls that have succeeded.
pub proof fn lemma_owned_after(done: int)
    ensures
        owned_after(done) == if done <= 1 {
            Seq::<Resource>::empty()
        } else if done <= 3 {
            seq![Resource::Instance]
        } else if done <= 4 {
            seq![Resource::Instance, Resource::Device]
        } else {
            ownership_chain()
        },
{
    reveal(owned_after);
    let keep = |r: Resource| r.creator().ordinal() < done;
    let none = Seq::<Resource>::empty();
    let one = none.push(Resource::Instance);
    let two = one.push(Resource::Device);
    let three = two.push(Resource::CommandPool);
    none.lemma_filter_push(Resource::Instance, keep);
    one.lemma_filter_push(Resource::Device, keep);
    two.lemma_filter_push(Resource::CommandPool, keep);
    assert(none.filter(keep) == none);
    assert(three == ownership_chain());
}

/// The twelve runs, call by call: the run that succeeds, and for each forward
/// call the run in which that call fails. The calls that destroy and the end
/// do not fail, and have no run.
pub open spec fn script_table(failed: Option<Call>) -> Seq<Call> {
    match failed {
        None => seq![
            Call::Load, Call::CreateInstance, Call::EnumerateDevices, Call::CreateDevice,
            Call::CreateCommandPool, Call::AllocateCommandBuffer, Call::BeginRecording,
            Call::Record, Call::EndRecording, Call::Submit, Call::WaitIdle,
            Call::DestroyCommandPool, Call::DestroyDevice, Call::DestroyInstance, Call::Finish,
        ],
        Some(Call::Load) => seq![
            Call::Load, Call::Finish,
        ],
        Some(Call::CreateInstance) => seq![
            Call::Load, Call::CreateInstance, Call::Finish,
        ],
        Some(Call::EnumerateDevices) => seq![
            Call::Load, Call::CreateInstance, Call::EnumerateDevices, Call::DestroyInstance,
            Call::Finish,
        ],
        Some(Call::CreateDevice) => seq![
            Call::Load, Call::CreateInstance, Call::EnumerateDevices, Call::CreateDevice,
            Call::DestroyInstance, Call::Finish,
        ],
        Some(Call::CreateCommandPool) => seq![
            Call::Load, Call::CreateInstance, Call::EnumerateDevices, Call::CreateDevice,
            Call::CreateCommandPool, Call::DestroyDevice, Call::DestroyInstance, Call::Finish,
        ],
        Some(Call::AllocateCommandBuffer) => seq![
            Call::Load, Call::CreateInstance, Call::EnumerateDevices, Call::CreateDevice,
            Call::CreateCommandPool, Call::AllocateCommandBuffer, Call::DestroyCommandPool,
            Call::DestroyDevice, Call::DestroyInstance, Call::Finish,
        ],
        Some(Call::BeginRecording) => seq![
            Call::Load, Call::CreateInstance, Call::EnumerateDevices, Call::CreateDevice,
            Call::CreateCommandPool, Call::AllocateCommandBuffer, Call::BeginRecording,
            Call::DestroyCommandPool, Call::DestroyDevice, Call::DestroyInstance, Call::Finish,
        ],
        Some(Call::Record) => seq![
            Call::Load, Call::CreateInstance, Call::EnumerateDevices, Call::CreateDevice,
            Call::CreateCommandPool, Call::AllocateCommandBuffer, Call::BeginRecording,
            Call::Record, Call::DestroyCommandPool, Call::DestroyDevice, Call::DestroyInstance,
            Call::Finish,
        ],
        Some(Call::EndRecording) => seq![
            Call::Load, Call::CreateInstance, Call::EnumerateDevices, Call::CreateDevice,
            Call::CreateCommandPool, Call::AllocateCommandBuffer, Call::BeginRecording,
            Call::Record, Call::EndRecording, Call::DestroyCommandPool, Call::DestroyDevice,
            Call::DestroyInstance, Call::Finish,
        ],
        Some(Call::Submit) => seq![
            Call::Load, Call::CreateInstance, Call::EnumerateDevices, Call::CreateDevice,
            Call::CreateCommandPool, Call::AllocateCommandBuffer, Call::BeginRecording,
            Call::Record, Call::EndRecording, Call::Submit, Call::DestroyCommandPool,
            Call::DestroyDevice, Call::DestroyInstance, Call::Finish,
        ],
        Some(Call::WaitIdle) => seq![
            Call::Load, Call::CreateInstance, Call::EnumerateDevices, Call::CreateDevice,
            Call::CreateCommandPool, Call::AllocateCommandBuffer, Call::BeginRecording,
            Call::Record, Call::EndRecording, Call::Submit, Call::WaitIdle,
            Call::DestroyCommandPool, Call::DestroyDevice, Call::DestroyInstance, Call::Finish,
        ],
        Some(_) => Seq::empty(),
    }
}

/// [`script`] is what [`script_table`] spells out.
pub proof fn lemma_script_table(failed: Option<Call>)
    requires
        failed matches Some(call) ==> call.is_forward(),
    ensures
        script(failed) == script_table(failed),
{
    reveal(script);
    lemma_owned_after(forward_done(failed));
    assert(script(failed) =~= script_table(failed));
}

/// Every run begins with the forward calls, as far as it gets.
pub proof fn lemma_script_begins_forward(failed: Option<Call>, n: int)
    requires
        failed matches Some(call) ==> call.is_forward(),
        0 <= n <= forward_issued(failed),
    ensures
        script(failed).take(n) == forward_calls().take(n),
{
    reveal(script);
    assert(script(failed).take(n) =~= forward_calls().take(n));
}

/// Along every run the calls come in the order of the run that succeeds.
pub proof fn lemma_script_ascending(failed: Option<Call>)
    requires
        failed matches Some(call) ==> call.is_forward(),
    ensures
        forall|i: int, j: int|
            0 <= i < j < script(failed).len() ==> (#[trigger] script(failed)[i]).ordinal() < (
            #[trigger] script(failed)[j]).ordinal(),
{
    lemma_script_table(failed);
}

/// No run makes a call twice.
pub proof fn lemma_script_no_duplicates(failed: Option<Call>)
    requires
        failed matches Some(call) ==> call.is_forward(),
    ensures
        script(failed).no_duplicates(),
{
    lemma_script_ascending(failed);
}

/// A call of a run is found at its own place.
pub proof fn lemma_script_index(failed: Option<Call>, i: int)
    requires
        failed matches Some(call) ==> call.is_forward(),
        0 <= i < script(failed).len(),
    ensures
        script(failed).index_of(script(failed)[i]) == i,
{
    lemma_script_no_duplicates(failed);
    let run = script(failed);
    let found = run.index_of(run[i]);
    assert(0 <= found < run.len() && run[found] == run[i]);
}

/// Keeping the items that all pass keeps the sequence.
proof fn lemma_filter_keeps_all<A>(items: Seq<A>, pass: spec_fn(A) -> bool)
    requires
        forall|i: int| 0 <= i < items.len() ==> pass(#[trigger] items[i]),
    ensures
        items.filter(pass) == items,
    decreases items.len(),
{
    if items.len() == 0 {
        assert(items.filter(pass).len() <= items.len()) by {
            items.lemma_filter_len(pass);
        }
        assert(items.filter(pass) =~= items);
    } else {
        let front = items.drop_last();
        lemma_filter_keeps_all(front, pass);
        front.lemma_filter_push(items.last(), pass);
        assert(front.push(items.last()) =~= items);
    }
}

/// Keeping the items of which none passes keeps nothing.
proof fn lemma_filter_keeps_none<A>(items: Seq<A>, pass: spec_fn(A) -> bool)
    requires
        forall|i: int| 0 <= i < items.len() ==> !pass(#[trigger] items[i]),
    ensures
        items.filter(pass) == Seq::<A>::empty(),
{
    assert(items.all(|x: A| !pass(x))) by {
        assert forall|i: int| 0 <= i < items.len() implies (|x: A| !pass(x))(#[trigger] items[i]) by {}
    }
    items.lemma_all_neg_filter_empty(pass);
    assert(items.filter(pass) =~= Seq::<A>::empty());
}

/// The destroying calls of a run, in the order in which the run makes them,
/// are the teardown of what its forward calls built: every owned resource
/// that was created is destroyed, children before parents, and nothing else
/// is.
pub proof fn lemma_teardown_mirrors_creation(failed: Option<Call>)
    requires
        failed matches Some(call) ==> call.is_forward(),
    ensures
        destroying_calls(script(failed)) == teardown_of(owned_after(forward_done(failed))),
{
    reveal(script);
    let destroys = |call: Call| call.is_teardown();
    let owned = owned_after(forward_done(failed));
    let built = forward_calls().take(forward_issued(failed));
    let teardown = teardown_of(owned);
    let end = seq![Call::Finish];
    lemma_owned_after(forward_done(failed));
    lemma_filter_keeps_none(built, destroys);
    lemma_filter_keeps_all(teardown, destroys);
    lemma_filter_keeps_none(end, destroys);
    Seq::filter_distributes_over_add(built, teardown, destroys);
    Seq::filter_distributes_over_add(built + teardown, end, destroys);
    assert(built.filter(destroys) + teardown.filter(destroys) + end.filter(destroys) =~= teardown);
}

/// An owned resource is destroyed in a run exactly when the run created it,
/// and then after it was created. A resource whose creation failed, or was
/// never tried, is not destroyed.
pub proof fn lemma_destroyed_iff_created(failed: Option<Call>, resource: Resource)
    requires
        failed matches Some(call) ==> call.is_forward(),
    ensures
        owned_after(forward_done(failed)).contains(resource) <==> script(failed).contains(
            resource.creator(),
        ) && failed != Some(resource.creator()),
        script(failed).contains(resource.destroyer()) <==> owned_after(
            forward_done(failed),
        ).contains(resource),
        script(failed).contains(resource.destroyer()) ==> script(failed).index_of(
            resource.creator(),
        ) < script(failed).index_of(resource.destroyer()),
{
    let run = script(failed);
    let owned = owned_after(forward_done(failed));
    lemma_owned_after(forward_done(failed));
    lemma_script_table(failed);
    lemma_script_ascending(failed);
    if forward_done(failed) > resource.creator().ordinal() {
        assert(run[resource.creator().ordinal()] == resource.creator());
        let depth = match resource {
            Resource::Instance => 0int,
            Resource::Device => 1int,
            Resource::CommandPool => 2int,
        };
        assert(owned[depth] == resource);
        let at = forward_issued(failed) + owned.len() - 1 - depth;
        assert(run[at] == resource.destroyer());
        lemma_script_index(failed, resource.creator().ordinal());
        lemma_script_index(failed, at);
    } else {
        if run.contains(resource.creator()) && failed != Some(resource.creator()) {
            let i = choose|i: int| 0 <= i < run.len() && run[i] == resource.creator();
            assert(false);
        }
        if run.contains(resource.destroyer()) {
            let i = choose|i: int| 0 <= i < run.len() && run[i] == resource.destroyer();
            assert(false);
        }
    }
}

/// Once a forward call has failed, the run makes no forward call after it:
/// nothing more is created.
pub proof fn lemma_nothing_built_after_failure(failed: Call, later: Call)
    requires
        failed.is_forward(),
        later.is_forward(),
        failed.ordinal() < later.ordinal(),
    ensures
        !script(Some(failed)).contains(later),
{
    let run = script(Some(failed));
    lemma_script_table(Some(failed));
    if run.contains(later) {
        let i = choose|i: int| 0 <= i < run.len() && run[i] == later;
        assert(false);
    }
}

/// The run that succeeds creates instance, device, command pool and command
/// buffer, in that order.
pub proof fn lemma_successful_run_creates_in_order()
    ensures
        creating_calls(script(None)) == seq![
            Call::CreateInstance,
            Call::CreateDevice,
            Call::CreateCommandPool,
            Call::AllocateCommandBuffer,
        ],
{
    reveal(script);
    let builds = |call: Call| call.builds();
    let built = forward_calls().take(forward_issued(None));
    let teardown = teardown_of(owned_after(forward_done(None)));
    let end = seq![Call::Finish];
    assert(built.filter(builds) == seq![
        Call::CreateInstance,
        Call::CreateDevice,
        Call::CreateCommandPool,
        Call::AllocateCommandBuffer,
    ]) by {
        assert(built =~= forward_calls());
        lemma_forward_builds();
    }
    assert(teardown.filter(builds) == Seq::<Call>::empty()) by {
        lemma_owned_after(forward_done(None));
        lemma_filter_keeps_none(teardown, builds);
    }
    assert(end.filter(builds) == Seq::<Call>::empty()) by {
        lemma_filter_keeps_none(end, builds);
    }
    assert(script(None).filter(builds) == built.filter(builds) + teardown.filter(builds)
        + end.filter(builds)) by {
        Seq::filter_distributes_over_add(built, teardown, builds);
        Seq::filter_distributes_over_add(built + teardown, end, builds);
    }
    assert(built.filter(builds) + Seq::<Call>::empty() + Seq::<Call>::empty() =~= built.filter(
        builds,
    ));
}

/// The run that succeeds destroys command pool, device and instance, in that
/// order: the owned resources in the reverse of the order in which it
/// created them.
pub proof fn lemma_successful_run_destroys_in_reverse()
    ensures
        destroying_calls(script(None)) == seq![
            Call::DestroyCommandPool,
            Call::DestroyDevice,
            Call::DestroyInstance,
        ],
        destroying_calls(script(None)) == teardown_of(ownership_chain()),
{
    let destroyed = destroying_calls(script(None));
    assert(owned_after(forward_done(None)) == ownership_chain()) by {
        lemma_owned_after(forward_done(None));
    }
    assert(destroyed == teardown_of(owned_after(forward_done(None)))) by {
        lemma_teardown_mirrors_creation(None);
    }
    assert(destroyed == teardown_of(ownership_chain()));
    assert(teardown_of(ownership_chain()) == seq![
        Call::DestroyCommandPool,
        Call::DestroyDevice,
        Call::DestroyInstance,
    ]) by {
        lemma_teardown_of_chain();
    }
}

/// The teardown of the whole ownership chain, call by call.
proof fn lemma_teardown_of_chain()
    ensures
        teardown_of(ownership_chain()) == seq![
            Call::DestroyCommandPool,
            Call::DestroyDevice,
            Call::DestroyInstance,
        ],
{
    assert(teardown_of(ownership_chain()) =~= seq![
        Call::DestroyCommandPool,
        Call::DestroyDevice,
        Call::DestroyInstance,
    ]);
}

/// Among the forward calls, the four that create come in the order instance,
/// device, command pool, command buffer.
proof fn lemma_forward_builds()
    ensures
        creating_calls(forward_calls()) == seq![
            Call::CreateInstance,
            Call::CreateDevice,
            Call::CreateCommandPool,
            Call::AllocateCommandBuffer,
        ],
{
    let builds = |call: Call| call.builds();
    let head = seq![Call::Load];
    let first = seq![Call::CreateInstance];
    let mid = seq![Call::EnumerateDevices];
    let rest = seq![Call::CreateDevice, Call::CreateCommandPool, Call::AllocateCommandBuffer];
    let tail = seq![
        Call::BeginRecording,
        Call::Record,
        Call::EndRecording,
        Call::Submit,
        Call::WaitIdle,
    ];
    assert(forward_calls() =~= head + first + mid + rest + tail);
    assert(head.filter(builds) == Seq::<Call>::empty()) by {
        lemma_filter_keeps_none(head, builds);
    }
    assert(first.filter(builds) == first) by {
        lemma_filter_keeps_all(first, builds);
    }
    assert(mid.filter(builds) == Seq::<Call>::empty()) by {
        lemma_filter_keeps_none(mid, builds);
    }
    assert(rest.filter(builds) == rest) by {
        lemma_filter_keeps_all(rest, builds);
    }
    assert(tail.filter(builds) == Seq::<Call>::empty()) by {
        lemma_filter_keeps_none(tail, builds);
    }
    assert((head + first + mid + rest + tail).filter(builds) == head.filter(builds) + first.filter(
        builds,
    ) + mid.filter(builds) + rest.filter(builds) + tail.filter(builds)) by {
        Seq::filter_distributes_over_add(head, first, builds);
        Seq::filter_distributes_over_add(head + first, mid, builds);
        Seq::filter_distributes_over_add(head + first + mid, rest, builds);
        Seq::filter_distributes_over_add(head + first + mid + rest, tail, builds);
    }
    assert(Seq::<Call>::empty() + first + Seq::<Call>::empty() + rest + Seq::<Call>::empty()
        =~= seq![
        Call::CreateInstance,
        Call::CreateDevice,
        Call::CreateCommandPool,
        Call::AllocateCommandBuffer,
    ]);
}

} // verus!
