//! The lifecycle of one bootstrap: what it holds, which call is pending, and
//! how each answer of the driver moves it on.
//!
//! [`Lifecycle`] is the state as plain data, with the transition
//! [`Lifecycle::after`] and the invariant [`Lifecycle::wf`] stated over it.
//! [`LifecycleManager`] is the state in use: it starts a run, takes the
//! driver's answers one by one and hands out the next call, and it cannot
//! leave the invariant.

use vstd::prelude::*;
use crate::error::{BootstrapError, NoSuitableDeviceError};
use crate::handle::{
    BufferLevel, BufferState, CommandBufferHandle, CommandPoolHandle, Config, DeviceHandle,
    InstanceHandle, QueueHandle,
};
use crate::laws::{lemma_after_extends_history, lemma_after_preserves_wf, lemma_initial_wf};
use crate::protocol::{Action, Call, Event, Resource};
use crate::script::{forward_calls, forward_done, forward_issued, owned_after, script};
use crate::selector::{select, selection_of, QueueFamilySelection};

verus! {

/// How far a bootstrap has come.
#[derive(Clone, Copy, Debug, PartialEq, Eq, Structural)]
pub enum Stage {
    /// No instance yet.
    Unstarted,
    /// The instance exists.
    Instanced,
    /// Device and queue family are chosen.
    Selected,
    /// The logical device and its queue exist.
    Deviced,
    /// Command pool and command buffer exist.
    Allocated,
    /// The unit of work has run to completion; what exists is being
    /// destroyed.
    Ready,
    /// The run succeeded and everything is destroyed.
    Destroyed,
    /// A call failed; what existed is being, or has been, destroyed.
    Failed,
}

impl Stage {
    /// Place of the stage on the way of a run that succeeds; `Failed` is off
    /// that way and has none.
    pub open spec fn order(self) -> int {
        match self {
            Stage::Unstarted => 0,
            Stage::Instanced => 1,
            Stage::Selected => 2,
            Stage::Deviced => 3,
            Stage::Allocated => 4,
            Stage::Ready => 5,
            Stage::Destroyed => 6,
            Stage::Failed => -1,
        }
    }
}

/// The call that failed, and the error that it stands for.
#[derive(Clone, Copy, Debug, PartialEq, Eq, Structural)]
pub struct Failure {
    /// The forward call that the driver rejected.
    pub call: Call,
    /// The error of the run.
    pub error: BootstrapError,
}

/// The error that a failure of `call` stands for, given the driver's answer.
pub open spec fn error_of(call: Call, event: Event) -> BootstrapError {
    match call {
        Call::Load => BootstrapError::Load,
        Call::CreateInstance => BootstrapError::InstanceCreation,
        Call::EnumerateDevices => BootstrapError::NoSuitableDevice(
            match event {
                Event::DevicesEnumerated { devices } => match selection_of(devices@) {
                    Err(reason) => reason,
                    Ok(_) => NoSuitableDeviceError::NoPhysicalDevice,
                },
                _ => NoSuitableDeviceError::NoPhysicalDevice,
            },
        ),
        Call::CreateDevice => BootstrapError::DeviceCreation,
        Call::CreateCommandPool | Call::AllocateCommandBuffer => BootstrapError::Allocation,
        _ => BootstrapError::Submission,
    }
}

/// `error` is of the kind that a failure of `call` stands for.
pub open spec fn blames(error: BootstrapError, call: Call) -> bool {
    match call {
        Call::Load => error == BootstrapError::Load,
        Call::CreateInstance => error == BootstrapError::InstanceCreation,
        Call::EnumerateDevices => error is NoSuitableDevice,
        Call::CreateDevice => error == BootstrapError::DeviceCreation,
        Call::CreateCommandPool | Call::AllocateCommandBuffer => error == BootstrapError::Allocation,
        _ => error == BootstrapError::Submission,
    }
}

/// Where the command buffer stands once the first `done` forward calls have
/// succeeded and it has been allocated.
pub open spec fn buffer_state_after(done: int) -> BufferState {
    if done <= Call::BeginRecording.ordinal() {
        BufferState::Initial
    } else if done <= Call::EndRecording.ordinal() {
        BufferState::Recording
    } else if done <= Call::Submit.ordinal() {
        BufferState::Executable
    } else if done <= Call::WaitIdle.ordinal() {
        BufferState::Pending
    } else {
        BufferState::Invalid
    }
}

/// The state of a bootstrap.
#[derive(Clone, Copy, Debug, PartialEq, Eq)]
pub struct Lifecycle {
    /// What the run asks of the driver.
    pub config: Config,
    /// The action that the caller is to perform, or is performing.
    pub pending: Action,
    /// The failure that ended building, if one did.
    pub failure: Option<Failure>,
    /// The instance, while it exists.
    pub instance: Option<InstanceHandle>,
    /// The chosen device and queue family, once chosen.
    pub selection: Option<QueueFamilySelection>,
    /// The logical device, while it exists.
    pub device: Option<DeviceHandle>,
    /// The queue, while its device exists.
    pub queue: Option<QueueHandle>,
    /// The command pool, while it exists.
    pub pool: Option<CommandPoolHandle>,
    /// The command buffer, while its pool exists.
    pub buffer: Option<CommandBufferHandle>,
}

impl Lifecycle {
    /// The state in which a run begins: nothing exists, and the loader is to
    /// be resolved.
    pub open spec fn initial(config: Config) -> Lifecycle {
        Lifecycle {
            config,
            pending: Action::Load,
            failure: None,
            instance: None,
            selection: None,
            device: None,
            queue: None,
            pool: None,
            buffer: None,
        }
    }

    /// The forward call that failed, if one did.
    pub open spec fn failed_call(self) -> Option<Call> {
        match self.failure {
            Some(failure) => Some(failure.call),
            None => None,
        }
    }

    /// The whole sequence of calls of the run as it goes, given what has
    /// failed so far.
    pub open spec fn run(self) -> Seq<Call> {
        script(self.failed_call())
    }

    /// The calls made so far: the run up to and including the pending call.
    pub open spec fn history(self) -> Seq<Call> {
        self.run().take(self.run().index_of(self.pending.call()) + 1)
    }

    /// The run is over.
    pub open spec fn is_finished(self) -> bool {
        self.pending.call() == Call::Finish
    }

    /// Number of forward calls that have succeeded so far.
    pub open spec fn done(self) -> int {
        match self.failure {
            Some(failure) => failure.call.ordinal(),
            None => if self.pending.call().is_forward() {
                self.pending.call().ordinal()
            } else {
                forward_calls().len() as int
            },
        }
    }

    /// Number of calls made before the pending one.
    pub open spec fn position(self) -> int {
        let call = self.pending.call();
        if call.is_forward() {
            call.ordinal()
        } else {
            let owned = owned_after(forward_done(self.failed_call())).len() as int;
            forward_issued(self.failed_call()) + match call {
                Call::DestroyCommandPool => 0,
                Call::DestroyDevice => owned - 2,
                Call::DestroyInstance => owned - 1,
                _ => owned,
            }
        }
    }

    /// The resource has been created and the call that destroys it has not
    /// been made.
    pub open spec fn holds(self, resource: Resource) -> bool {
        resource.creator().ordinal() < self.done() && self.pending.call().ordinal()
            < resource.destroyer().ordinal()
    }

    /// How far the bootstrap has come.
    pub open spec fn stage(self) -> Stage {
        if self.failure is Some {
            Stage::Failed
        } else {
            match self.pending.call() {
                Call::Load | Call::CreateInstance => Stage::Unstarted,
                Call::EnumerateDevices => Stage::Instanced,
                Call::CreateDevice => Stage::Selected,
                Call::CreateCommandPool | Call::AllocateCommandBuffer => Stage::Deviced,
                Call::BeginRecording | Call::Record | Call::EndRecording | Call::Submit
                | Call::WaitIdle => Stage::Allocated,
                Call::DestroyCommandPool | Call::DestroyDevice | Call::DestroyInstance => Stage::Ready,
                Call::Finish => Stage::Destroyed,
            }
        }
    }

    /// The action that makes `call`, with its arguments taken from what the
    /// lifecycle holds.
    pub open spec fn action_for(self, call: Call) -> Action {
        match call {
            Call::Load => Action::Load,
            Call::CreateInstance => Action::CreateInstance { api_version: self.config.api_version },
            Call::EnumerateDevices => Action::EnumerateDevices { instance: self.instance.unwrap().raw },
            Call::CreateDevice => Action::CreateDevice {
                instance: self.instance.unwrap().raw,
                physical_device: self.selection.unwrap().physical_device,
                queue_family: self.selection.unwrap().queue_family,
                queue_count: 1,
                queue_index: 0,
                features: self.config.features,
            },
            Call::CreateCommandPool => Action::CreateCommandPool {
                device: self.device.unwrap().raw,
                queue_family: self.device.unwrap().queue_family,
            },
            Call::AllocateCommandBuffer => Action::AllocateCommandBuffer {
                device: self.device.unwrap().raw,
                pool: self.pool.unwrap().raw,
                level: BufferLevel::Primary,
                count: 1,
            },
            Call::BeginRecording => Action::BeginRecording {
                buffer: self.buffer.unwrap().raw,
                one_time_submit: true,
            },
            Call::Record => Action::Record { buffer: self.buffer.unwrap().raw },
            Call::EndRecording => Action::EndRecording { buffer: self.buffer.unwrap().raw },
            Call::Submit => Action::Submit {
                queue: self.queue.unwrap().raw,
                buffer: self.buffer.unwrap().raw,
            },
            Call::WaitIdle => Action::WaitIdle { queue: self.queue.unwrap().raw },
            Call::DestroyCommandPool => Action::DestroyCommandPool {
                device: self.device.unwrap().raw,
                pool: self.pool.unwrap().raw,
            },
            Call::DestroyDevice => Action::DestroyDevice { device: self.device.unwrap().raw },
            Call::DestroyInstance => Action::DestroyInstance { instance: self.instance.unwrap().raw },
            Call::Finish => Action::Finish {
                error: match self.failure {
                    Some(failure) => Some(failure.error),
                    None => None,
                },
            },
        }
    }

    /// The invariant of a lifecycle. What it holds is what the calls so far
    /// have created and not destroyed; each record says what the resource was
    /// created from; the pending action names what is held.
    pub open spec fn wf(self) -> bool {
        let call = self.pending.call();
        &&& self.failure matches Some(failure) ==> failure.call.is_forward() && !call.is_forward()
            && blames(failure.error, failure.call)
        &&& call == Call::DestroyCommandPool ==> Resource::CommandPool.creator().ordinal()
            < self.done()
        &&& call == Call::DestroyDevice ==> Resource::Device.creator().ordinal() < self.done()
        &&& call == Call::DestroyInstance ==> Resource::Instance.creator().ordinal() < self.done()
        &&& self.instance is Some <==> self.holds(Resource::Instance)
        &&& self.device is Some <==> self.holds(Resource::Device)
        &&& self.queue is Some <==> self.holds(Resource::Device)
        &&& self.pool is Some <==> self.holds(Resource::CommandPool)
        &&& self.buffer is Some <==> self.holds(Resource::CommandPool)
            && Call::AllocateCommandBuffer.ordinal() < self.done()
        &&& self.selection is Some <==> Call::EnumerateDevices.ordinal() < self.done()
        &&& self.instance matches Some(instance) ==> instance.api_version == self.config.api_version
        &&& self.device matches Some(device) ==> {
            &&& self.selection matches Some(selection)
            &&& device.physical_device == selection.physical_device
            &&& device.queue_family == selection.queue_family
            &&& device.features == self.config.features
        }
        &&& self.queue matches Some(queue) ==> {
            &&& self.device matches Some(device)
            &&& queue.family == device.queue_family
            &&& queue.index == 0
        }
        &&& self.pool matches Some(pool) ==> {
            &&& self.device matches Some(device)
            &&& pool.queue_family == device.queue_family
        }
        &&& self.buffer matches Some(buffer) ==> buffer.state == if self.failure is Some {
            BufferState::Invalid
        } else {
            buffer_state_after(self.done())
        }
        &&& !call.is_teardown() ==> self.pending == self.action_for(call)
    }

    /// The lifecycle with `call` pending.
    pub open spec fn issue(self, call: Call) -> Lifecycle {
        Lifecycle { pending: self.action_for(call), ..self }
    }

    /// The lifecycle with the command buffer, if there is one, in `state`.
    pub open spec fn with_buffer_state(self, state: BufferState) -> Lifecycle {
        Lifecycle {
            buffer: match self.buffer {
                Some(buffer) => Some(CommandBufferHandle { state, ..buffer }),
                None => None,
            },
            ..self
        }
    }

    /// The lifecycle with what `event` brings recorded, if `event` is the
    /// answer that says that the pending call succeeded. An enumeration
    /// succeeds only with a list from which a selection can be made.
    pub open spec fn accept(self, event: Event) -> Option<Lifecycle> {
        match (self.pending, event) {
            (Action::Load, Event::Loaded) => Some(self),
            (Action::CreateInstance { api_version }, Event::InstanceCreated { instance }) => Some(
                Lifecycle { instance: Some(InstanceHandle { raw: instance, api_version }), ..self },
            ),
            (Action::EnumerateDevices { .. }, Event::DevicesEnumerated { devices }) => match selection_of(
                devices@,
            ) {
                Ok(selection) => Some(Lifecycle { selection: Some(selection), ..self }),
                Err(_) => None,
            },
            (
                Action::CreateDevice { physical_device, queue_family, queue_index, features, .. },
                Event::DeviceCreated { device, queue },
            ) => Some(
                Lifecycle {
                    device: Some(
                        DeviceHandle { raw: device, physical_device, queue_family, features },
                    ),
                    queue: Some(QueueHandle { raw: queue, family: queue_family, index: queue_index }),
                    ..self
                },
            ),
            (Action::CreateCommandPool { queue_family, .. }, Event::CommandPoolCreated { pool }) => Some(
                Lifecycle { pool: Some(CommandPoolHandle { raw: pool, queue_family }), ..self },
            ),
            (Action::AllocateCommandBuffer { .. }, Event::CommandBufferAllocated { buffer }) => Some(
                Lifecycle {
                    buffer: Some(CommandBufferHandle { raw: buffer, state: BufferState::Initial }),
                    ..self
                },
            ),
            (Action::BeginRecording { .. }, Event::RecordingBegun) => Some(
                self.with_buffer_state(BufferState::Recording),
            ),
            (Action::Record { .. }, Event::Recorded) => Some(self),
            (Action::EndRecording { .. }, Event::RecordingEnded) => Some(
                self.with_buffer_state(BufferState::Executable),
            ),
            (Action::Submit { .. }, Event::Submitted) => Some(
                self.with_buffer_state(BufferState::Pending),
            ),
            (Action::WaitIdle { .. }, Event::QueueIdle) => Some(
                self.with_buffer_state(BufferState::Invalid),
            ),
            _ => None,
        }
    }

    /// The lifecycle with the pending call recorded as failed. The command
    /// buffer, if there is one, is not to be used again.
    pub open spec fn fail(self, event: Event) -> Lifecycle {
        Lifecycle {
            failure: Some(
                Failure { call: self.pending.call(), error: error_of(self.pending.call(), event) },
            ),
            ..self.with_buffer_state(BufferState::Invalid)
        }
    }

    /// The lifecycle with the innermost resource that it holds given up and
    /// the call that destroys it pending; with nothing held, the end.
    pub open spec fn release(self) -> Lifecycle {
        if self.pool is Some {
            Lifecycle {
                pending: self.action_for(Call::DestroyCommandPool),
                pool: None,
                buffer: None,
                ..self
            }
        } else if self.device is Some {
            Lifecycle {
                pending: self.action_for(Call::DestroyDevice),
                device: None,
                queue: None,
                ..self
            }
        } else if self.instance is Some {
            Lifecycle { pending: self.action_for(Call::DestroyInstance), instance: None, ..self }
        } else {
            Lifecycle { pending: self.action_for(Call::Finish), ..self }
        }
    }

    /// The state after the driver's answer `event` to the pending action.
    ///
    /// A forward call that succeeded is followed by the next forward call,
    /// the last one by teardown. A forward call that did not succeed, whatever
    /// the answer was, is recorded as failed and followed by teardown. A
    /// destroying call cannot fail: any answer is followed by the next step
    /// of teardown. After the end nothing changes.
    pub open spec fn after(self, event: Event) -> Lifecycle {
        let call = self.pending.call();
        if call == Call::Finish {
            self
        } else if call.is_teardown() {
            self.release()
        } else {
            match self.accept(event) {
                Some(next) => if call == Call::WaitIdle {
                    next.release()
                } else {
                    next.issue(forward_calls()[call.ordinal() + 1])
                },
                None => self.fail(event).release(),
            }
        }
    }
}

impl Lifecycle {
    /// The state in which a run begins.
    fn start(config: Config) -> (state: Lifecycle)
        ensures
            state == Lifecycle::initial(config),
    {
        Lifecycle {
            config,
            pending: Action::Load,
            failure: None,
            instance: None,
            selection: None,
            device: None,
            queue: None,
            pool: None,
            buffer: None,
        }
    }

    /// The lifecycle with `action` pending.
    fn issued(self, action: Action) -> (next: Lifecycle)
        ensures
            next == (Lifecycle { pending: action, ..self }),
    {
        Lifecycle { pending: action, ..self }
    }

    /// The lifecycle with its command buffer in `state`.
    fn buffer_in(self, state: BufferState) -> (next: Lifecycle)
        ensures
            next == self.with_buffer_state(state),
    {
        match self.buffer {
            Some(buffer) => Lifecycle {
                buffer: Some(CommandBufferHandle { raw: buffer.raw, state }),
                ..self
            },
            None => self,
        }
    }

    /// Gives up the innermost resource held and makes the call that destroys
    /// it pending; with nothing held, ends the run.
    fn released(self) -> (next: Lifecycle)
        requires
            self.pool is Some ==> self.device is Some,
        ensures
            next == self.release(),
    {
        match (self.pool, self.device, self.instance) {
            (Some(pool), Some(device), _) => Lifecycle {
                pending: Action::DestroyCommandPool { device: device.raw, pool: pool.raw },
                pool: None,
                buffer: None,
                ..self
            },
            (_, Some(device), _) => Lifecycle {
                pending: Action::DestroyDevice { device: device.raw },
                device: None,
                queue: None,
                ..self
            },
            (_, _, Some(instance)) => Lifecycle {
                pending: Action::DestroyInstance { instance: instance.raw },
                instance: None,
                ..self
            },
            _ => Lifecycle {
                pending: Action::Finish {
                    error: match self.failure {
                        Some(failure) => Some(failure.error),
                        None => None,
                    },
                },
                ..self
            },
        }
    }

    /// Records the pending call as failed with `error` and begins teardown.
    fn abandoned(self, error: BootstrapError, Ghost(event): Ghost<Event>) -> (next: Lifecycle)
        requires
            self.wf(),
            self.pending.call().is_forward(),
            self.accept(event) is None,
            error == error_of(self.pending.call(), event),
        ensures
            next == self.after(event),
    {
        let failure = Failure { call: self.pending.call(), error };
        let marked = Lifecycle { failure: Some(failure), ..self.buffer_in(BufferState::Invalid) };
        marked.released()
    }

    /// The state after the driver's answer `event` to the pending action.
    fn advance(self, event: Event) -> (next: Lifecycle)
        requires
            self.wf(),
        ensures
            next == self.after(event),
            next.wf(),
            !self.is_finished() ==> next.history() == self.history().push(next.pending.call()),
    {
        proof {
            lemma_after_preserves_wf(self, event);
            if !self.is_finished() {
                lemma_after_extends_history(self, event);
            }
        }
        let ghost answer = event;
        match (self.pending, event) {
            (Action::Finish { .. }, _) => self,
            (Action::DestroyCommandPool { .. }, _) => self.released(),
            (Action::DestroyDevice { .. }, _) => self.released(),
            (Action::DestroyInstance { .. }, _) => self.released(),
            (Action::Load, Event::Loaded) => self.issued(
                Action::CreateInstance { api_version: self.config.api_version },
            ),
            (Action::Load, _) => self.abandoned(BootstrapError::Load, Ghost(answer)),
            (Action::CreateInstance { api_version }, Event::InstanceCreated { instance }) => {
                let held = Lifecycle {
                    instance: Some(InstanceHandle { raw: instance, api_version }),
                    ..self
                };
                held.issued(Action::EnumerateDevices { instance })
            },
            (Action::CreateInstance { .. }, _) => self.abandoned(
                BootstrapError::InstanceCreation,
                Ghost(answer),
            ),
            (Action::EnumerateDevices { instance }, Event::DevicesEnumerated { devices }) => {
                match select(&devices) {
                    Ok(selection) => {
                        let chosen = Lifecycle { selection: Some(selection), ..self };
                        chosen.issued(
                            Action::CreateDevice {
                                instance,
                                physical_device: selection.physical_device,
                                queue_family: selection.queue_family,
                                queue_count: 1,
                                queue_index: 0,
                                features: self.config.features,
                            },
                        )
                    },
                    Err(reason) => self.abandoned(
                        BootstrapError::NoSuitableDevice(reason),
                        Ghost(answer),
                    ),
                }
            },
            (Action::EnumerateDevices { .. }, _) => self.abandoned(
                BootstrapError::NoSuitableDevice(NoSuitableDeviceError::NoPhysicalDevice),
                Ghost(answer),
            ),
            (
                Action::CreateDevice { physical_device, queue_family, queue_index, features, .. },
                Event::DeviceCreated { device, queue },
            ) => {
                let held = Lifecycle {
                    device: Some(
                        DeviceHandle { raw: device, physical_device, queue_family, features },
                    ),
                    queue: Some(QueueHandle { raw: queue, family: queue_family, index: queue_index }),
                    ..self
                };
                held.issued(Action::CreateCommandPool { device, queue_family })
            },
            (Action::CreateDevice { .. }, _) => self.abandoned(
                BootstrapError::DeviceCreation,
                Ghost(answer),
            ),
            (
                Action::CreateCommandPool { device, queue_family },
                Event::CommandPoolCreated { pool },
            ) => {
                let held = Lifecycle {
                    pool: Some(CommandPoolHandle { raw: pool, queue_family }),
                    ..self
                };
                held.issued(
                    Action::AllocateCommandBuffer {
                        device,
                        pool,
                        level: BufferLevel::Primary,
                        count: 1,
                    },
                )
            },
            (Action::CreateCommandPool { .. }, _) => self.abandoned(
                BootstrapError::Allocation,
                Ghost(answer),
            ),
            (Action::AllocateCommandBuffer { .. }, Event::CommandBufferAllocated { buffer }) => {
                let held = Lifecycle {
                    buffer: Some(CommandBufferHandle { raw: buffer, state: BufferState::Initial }),
                    ..self
                };
                held.issued(Action::BeginRecording { buffer, one_time_submit: true })
            },
            (Action::AllocateCommandBuffer { .. }, _) => self.abandoned(
                BootstrapError::Allocation,
                Ghost(answer),
            ),
            (Action::BeginRecording { buffer, .. }, Event::RecordingBegun) => self.buffer_in(
                BufferState::Recording,
            ).issued(Action::Record { buffer }),
            (Action::Record { buffer }, Event::Recorded) => self.issued(
                Action::EndRecording { buffer },
            ),
            (Action::EndRecording { buffer }, Event::RecordingEnded) => {
                match self.queue {
                    Some(queue) => self.buffer_in(BufferState::Executable).issued(
                        Action::Submit { queue: queue.raw, buffer },
                    ),
                    // The queue is held for as long as the device is.
                    None => self,
                }
            },
            (Action::Submit { queue, .. }, Event::Submitted) => self.buffer_in(
                BufferState::Pending,
            ).issued(Action::WaitIdle { queue }),
            (Action::WaitIdle { .. }, Event::QueueIdle) => self.buffer_in(
                BufferState::Invalid,
            ).released(),
            (_, _) => self.abandoned(BootstrapError::Submission, Ghost(answer)),
        }
    }
}

/// A bootstrap in progress.
///
/// It is made with the first action pending. The caller performs the pending
/// action and reports the driver's answer to [`LifecycleManager::step`],
/// which returns the next action, until that is [`Action::Finish`].
pub struct LifecycleManager {
    state: Lifecycle,
}

impl View for LifecycleManager {
    type V = Lifecycle;

    closed spec fn view(&self) -> Lifecycle {
        self.state
    }
}

impl LifecycleManager {
    #[verifier::type_invariant]
    spec fn well_formed(self) -> bool {
        self.state.wf()
    }

    /// Begins a run: nothing exists yet, and [`Action::Load`] is pending.
    pub fn new(config: Config) -> (manager: LifecycleManager)
        ensures
            manager@ == Lifecycle::initial(config),
            manager@.wf(),
            manager@.history() == seq![Call::Load],
    {
        proof {
            lemma_initial_wf(config);
        }
        LifecycleManager { state: Lifecycle::start(config) }
    }

    /// Takes the driver's answer to the pending action and returns the
    /// action to perform next.
    ///
    /// The new state is [`Lifecycle::after`] of the old one. Until the run is
    /// over, the returned action makes the one call that the run of this
    /// lifecycle has next; once it is over, the action stays
    /// [`Action::Finish`] and nothing changes.
    pub fn step(&mut self, event: Event) -> (action: Action)
        ensures
            final(self)@ == old(self)@.after(event),
            action == final(self)@.pending,
            old(self)@.wf(),
            final(self)@.wf(),
            !old(self)@.is_finished() ==> final(self)@.history() == old(self)@.history().push(
                action.call(),
            ),
            old(self)@.is_finished() ==> final(self)@ == old(self)@,
    {
        proof {
            use_type_invariant(&*self);
        }
        let next = self.state.advance(event);
        self.state = next;
        next.pending
    }

    /// The action that the caller is to perform.
    pub fn pending(&self) -> (action: Action)
        ensures
            action == self@.pending,
    {
        self.state.pending
    }

    /// How far the bootstrap has come.
    pub fn stage(&self) -> (stage: Stage)
        ensures
            stage == self@.stage(),
    {
        if self.state.failure.is_some() {
            Stage::Failed
        } else {
            match self.state.pending.call() {
                Call::Load | Call::CreateInstance => Stage::Unstarted,
                Call::EnumerateDevices => Stage::Instanced,
                Call::CreateDevice => Stage::Selected,
                Call::CreateCommandPool | Call::AllocateCommandBuffer => Stage::Deviced,
                Call::BeginRecording | Call::Record | Call::EndRecording | Call::Submit
                | Call::WaitIdle => Stage::Allocated,
                Call::DestroyCommandPool | Call::DestroyDevice | Call::DestroyInstance => Stage::Ready,
                Call::Finish => Stage::Destroyed,
            }
        }
    }

    /// Whether the run is over.
    pub fn is_finished(&self) -> (over: bool)
        ensures
            over == self@.is_finished(),
    {
        match self.state.pending {
            Action::Finish { .. } => true,
            _ => false,
        }
    }

    /// The failure that ended building, if one did.
    pub fn failure(&self) -> (failure: Option<Failure>)
        ensures
            failure == self@.failure,
    {
        self.state.failure
    }

    /// The state as plain data.
    pub fn state(&self) -> (state: Lifecycle)
        ensures
            state == self@,
            state.wf(),
    {
        proof {
            use_type_invariant(self);
        }
        self.state
    }
}

} // verus!
