use ash::vk;
use gpu_bootstrap::descriptor::{PhysicalDeviceDescriptor, QueueFamilyDescriptor};
use gpu_bootstrap::error::{BootstrapError, NoSuitableDeviceError};
use gpu_bootstrap::handle::{BufferLevel, BufferState, Config, FeatureSet};
use gpu_bootstrap::lifecycle::{Failure, LifecycleManager, Stage};
use gpu_bootstrap::protocol::{Action, Call, Event};

/// A driver that hands out handles, records what it is asked, and fails
/// where it is told to.
struct MockDriver {
    fail_at: Option<Call>,
    devices: Vec<(u64, i32, Vec<u32>)>,
    next_handle: u64,
    calls: Vec<Call>,
    created: Vec<u64>,
    destroyed: Vec<u64>,
    submitted: bool,
    idle: bool,
}

impl MockDriver {
    fn new(fail_at: Option<Call>) -> MockDriver {
        MockDriver {
            fail_at,
            devices: vec![
                (501, vk::PhysicalDeviceType::INTEGRATED_GPU.as_raw(), vec![7]),
                (502, vk::PhysicalDeviceType::DISCRETE_GPU.as_raw(), vec![3, 6, 15]),
            ],
            next_handle: 1000,
            calls: Vec::new(),
            created: Vec::new(),
            destroyed: Vec::new(),
            submitted: false,
            idle: true,
        }
    }

    fn create(&mut self) -> u64 {
        self.next_handle += 1;
        self.created.push(self.next_handle);
        self.next_handle
    }

    fn perform(&mut self, action: Action) -> Event {
        self.calls.push(action.call());
        if self.fail_at == Some(action.call()) {
            return Event::Failed;
        }
        match action {
            Action::Load => Event::Loaded,
            Action::CreateInstance { .. } => Event::InstanceCreated { instance: self.create() },
            Action::EnumerateDevices { .. } => Event::DevicesEnumerated {
                devices: self
                    .devices
                    .iter()
                    .map(|(handle, device_type, families)| PhysicalDeviceDescriptor {
                        handle: *handle,
                        device_type: *device_type,
                        families: families
                            .iter()
                            .map(|flags| QueueFamilyDescriptor { flags: *flags, count: 1 })
                            .collect(),
                    })
                    .collect(),
            },
            Action::CreateDevice { .. } => {
                let device = self.create();
                Event::DeviceCreated { device, queue: device + 5000 }
            },
            Action::CreateCommandPool { .. } => Event::CommandPoolCreated { pool: self.create() },
            Action::AllocateCommandBuffer { pool, .. } => {
                Event::CommandBufferAllocated { buffer: pool + 7000 }
            },
            Action::BeginRecording { .. } => Event::RecordingBegun,
            Action::Record { .. } => Event::Recorded,
            Action::EndRecording { .. } => Event::RecordingEnded,
            Action::Submit { .. } => {
                self.submitted = true;
                self.idle = false;
                Event::Submitted
            },
            Action::WaitIdle { .. } => {
                self.idle = true;
                Event::QueueIdle
            },
            Action::DestroyCommandPool { pool, .. } => {
                self.destroyed.push(pool);
                Event::Destroyed
            },
            Action::DestroyDevice { device } => {
                self.destroyed.push(device);
                Event::Destroyed
            },
            Action::DestroyInstance { instance } => {
                self.destroyed.push(instance);
                Event::Destroyed
            },
            Action::Finish { .. } => Event::Destroyed,
        }
    }
}

fn config() -> Config {
    Config { api_version: 4_210_688, features: FeatureSet { synchronization2: true } }
}

/// Runs a whole bootstrap against `driver` and returns how it ended.
fn run(driver: &mut MockDriver) -> (LifecycleManager, Option<BootstrapError>) {
    let mut manager = LifecycleManager::new(config());
    let mut action = manager.pending();
    for _ in 0..64 {
        if let Action::Finish { error } = action {
            driver.calls.push(Call::Finish);
            return (manager, error);
        }
        let event = driver.perform(action);
        action = manager.step(event);
    }
    panic!("the run did not end");
}

fn forward() -> Vec<Call> {
    vec![
        Call::Load,
        Call::CreateInstance,
        Call::EnumerateDevices,
        Call::CreateDevice,
        Call::CreateCommandPool,
        Call::AllocateCommandBuffer,
        Call::BeginRecording,
        Call::Record,
        Call::EndRecording,
        Call::Submit,
        Call::WaitIdle,
    ]
}

fn creations(calls: &[Call]) -> Vec<Call> {
    calls
        .iter()
        .copied()
        .filter(|call| {
            matches!(
                call,
                Call::CreateInstance
                    | Call::CreateDevice
                    | Call::CreateCommandPool
                    | Call::AllocateCommandBuffer
            )
        })
        .collect()
}

fn destructions(calls: &[Call]) -> Vec<Call> {
    calls
        .iter()
        .copied()
        .filter(|call| {
            matches!(call, Call::DestroyCommandPool | Call::DestroyDevice | Call::DestroyInstance)
        })
        .collect()
}

/// Runs with a failure injected at `call` and checks what every failed run
/// owes: the calls stop being forward calls there, what was created is
/// destroyed once each and in reverse, and the error is `error`.
fn check_failure_at(call: Call, built: usize, error: BootstrapError) {
    let mut driver = MockDriver::new(Some(call));
    let (manager, outcome) = run(&mut driver);
    assert_eq!(outcome, Some(error));
    assert_eq!(manager.stage(), Stage::Failed);
    assert!(manager.is_finished());
    assert_eq!(manager.failure(), Some(Failure { call, error }));

    let at = forward().iter().position(|c| *c == call).unwrap();
    assert_eq!(&driver.calls[..=at], &forward()[..=at]);
    let rest = &driver.calls[at + 1..];
    assert_eq!(rest.len(), built + 1);
    assert_eq!(rest.last(), Some(&Call::Finish));
    assert_eq!(&rest[..built], &destructions(&driver.calls)[..]);

    assert_eq!(driver.created.len(), built);
    let mut reversed = driver.created.clone();
    reversed.reverse();
    assert_eq!(driver.destroyed, reversed);

    let state = manager.state();
    assert_eq!(state.instance, None);
    assert_eq!(state.device, None);
    assert_eq!(state.queue, None);
    assert_eq!(state.pool, None);
    assert_eq!(state.buffer, None);
}

#[test]
fn a_new_manager_has_load_pending_and_holds_nothing() {
    let manager = LifecycleManager::new(config());
    assert_eq!(manager.pending(), Action::Load);
    assert_eq!(manager.stage(), Stage::Unstarted);
    assert!(!manager.is_finished());
    assert_eq!(manager.failure(), None);
    let state = manager.state();
    assert_eq!(state.config, config());
    assert_eq!(state.instance, None);
    assert_eq!(state.selection, None);
    assert_eq!(state.device, None);
    assert_eq!(state.queue, None);
    assert_eq!(state.pool, None);
    assert_eq!(state.buffer, None);
}

#[test]
fn successful_run_creates_in_order_and_destroys_in_reverse() {
    let mut driver = MockDriver::new(None);
    let (manager, outcome) = run(&mut driver);
    assert_eq!(outcome, None);
    assert_eq!(manager.stage(), Stage::Destroyed);
    assert!(manager.is_finished());
    assert_eq!(manager.failure(), None);

    let mut expected = forward();
    expected.extend([
        Call::DestroyCommandPool,
        Call::DestroyDevice,
        Call::DestroyInstance,
        Call::Finish,
    ]);
    assert_eq!(driver.calls, expected);
    assert_eq!(
        creations(&driver.calls),
        vec![
            Call::CreateInstance,
            Call::CreateDevice,
            Call::CreateCommandPool,
            Call::AllocateCommandBuffer
        ]
    );
    assert_eq!(
        destructions(&driver.calls),
        vec![Call::DestroyCommandPool, Call::DestroyDevice, Call::DestroyInstance]
    );
    assert_eq!(driver.created, vec![1001, 1002, 1003]);
    assert_eq!(driver.destroyed, vec![1003, 1002, 1001]);
}

#[test]
fn successful_run_hands_out_each_action_with_its_arguments() {
    let mut driver = MockDriver::new(None);
    let mut manager = LifecycleManager::new(config());
    let mut seen = vec![manager.pending()];
    while !manager.is_finished() {
        let event = driver.perform(manager.pending());
        seen.push(manager.step(event));
    }
    assert_eq!(
        seen,
        vec![
            Action::Load,
            Action::CreateInstance { api_version: 4_210_688 },
            Action::EnumerateDevices { instance: 1001 },
            Action::CreateDevice {
                instance: 1001,
                physical_device: 502,
                queue_family: 2,
                queue_count: 1,
                queue_index: 0,
                features: FeatureSet { synchronization2: true },
            },
            Action::CreateCommandPool { device: 1002, queue_family: 2 },
            Action::AllocateCommandBuffer {
                device: 1002,
                pool: 1003,
                level: BufferLevel::Primary,
                count: 1,
            },
            Action::BeginRecording { buffer: 8003, one_time_submit: true },
            Action::Record { buffer: 8003 },
            Action::EndRecording { buffer: 8003 },
            Action::Submit { queue: 6002, buffer: 8003 },
            Action::WaitIdle { queue: 6002 },
            Action::DestroyCommandPool { device: 1002, pool: 1003 },
            Action::DestroyDevice { device: 1002 },
            Action::DestroyInstance { instance: 1001 },
            Action::Finish { error: None },
        ]
    );
}

#[test]
fn stages_follow_the_pipeline() {
    let mut driver = MockDriver::new(None);
    let mut manager = LifecycleManager::new(config());
    let mut stages = vec![manager.stage()];
    while !manager.is_finished() {
        let event = driver.perform(manager.pending());
        manager.step(event);
        stages.push(manager.stage());
    }
    assert_eq!(
        stages,
        vec![
            Stage::Unstarted,
            Stage::Unstarted,
            Stage::Instanced,
            Stage::Selected,
            Stage::Deviced,
            Stage::Deviced,
            Stage::Allocated,
            Stage::Allocated,
            Stage::Allocated,
            Stage::Allocated,
            Stage::Allocated,
            Stage::Ready,
            Stage::Ready,
            Stage::Ready,
            Stage::Destroyed,
        ]
    );
}

#[test]
fn records_say_what_each_resource_was_created_from() {
    let mut driver = MockDriver::new(None);
    let mut manager = LifecycleManager::new(config());
    while manager.pending().call() != Call::BeginRecording {
        let event = driver.perform(manager.pending());
        manager.step(event);
    }
    let state = manager.state();
    let instance = state.instance.unwrap();
    assert_eq!((instance.raw, instance.api_version), (1001, 4_210_688));
    let selection = state.selection.unwrap();
    assert_eq!((selection.physical_device, selection.queue_family), (502, 2));
    let device = state.device.unwrap();
    assert_eq!((device.raw, device.physical_device, device.queue_family), (1002, 502, 2));
    assert_eq!(device.features, FeatureSet { synchronization2: true });
    let queue = state.queue.unwrap();
    assert_eq!((queue.raw, queue.family, queue.index), (6002, 2, 0));
    let pool = state.pool.unwrap();
    assert_eq!((pool.raw, pool.queue_family), (1003, 2));
    let buffer = state.buffer.unwrap();
    assert_eq!((buffer.raw, buffer.state), (8003, BufferState::Initial));
}

#[test]
fn command_buffer_goes_from_initial_to_invalid() {
    let mut driver = MockDriver::new(None);
    let mut manager = LifecycleManager::new(config());
    let mut states = Vec::new();
    while !manager.is_finished() {
        if let Some(buffer) = manager.state().buffer {
            states.push((manager.pending().call(), buffer.state));
        }
        let event = driver.perform(manager.pending());
        manager.step(event);
    }
    assert_eq!(
        states,
        vec![
            (Call::BeginRecording, BufferState::Initial),
            (Call::Record, BufferState::Recording),
            (Call::EndRecording, BufferState::Recording),
            (Call::Submit, BufferState::Executable),
            (Call::WaitIdle, BufferState::Pending),
        ]
    );
}

#[test]
fn failure_at_the_loader_destroys_nothing() {
    check_failure_at(Call::Load, 0, BootstrapError::Load);
}

#[test]
fn failure_at_the_instance_destroys_nothing() {
    check_failure_at(Call::CreateInstance, 0, BootstrapError::InstanceCreation);
}

#[test]
fn failure_at_enumeration_destroys_the_instance() {
    check_failure_at(
        Call::EnumerateDevices,
        1,
        BootstrapError::NoSuitableDevice(NoSuitableDeviceError::NoPhysicalDevice),
    );
}

#[test]
fn failure_at_the_device_destroys_the_instance() {
    check_failure_at(Call::CreateDevice, 1, BootstrapError::DeviceCreation);
}

#[test]
fn failure_at_the_pool_destroys_device_and_instance() {
    check_failure_at(Call::CreateCommandPool, 2, BootstrapError::Allocation);
}

#[test]
fn failure_at_the_buffer_destroys_pool_device_and_instance() {
    check_failure_at(Call::AllocateCommandBuffer, 3, BootstrapError::Allocation);
}

#[test]
fn failure_anywhere_in_submission_destroys_everything() {
    check_failure_at(Call::BeginRecording, 3, BootstrapError::Submission);
    check_failure_at(Call::Record, 3, BootstrapError::Submission);
    check_failure_at(Call::EndRecording, 3, BootstrapError::Submission);
    check_failure_at(Call::Submit, 3, BootstrapError::Submission);
    check_failure_at(Call::WaitIdle, 3, BootstrapError::Submission);
}

#[test]
fn empty_enumeration_is_no_suitable_device() {
    let mut driver = MockDriver::new(None);
    driver.devices = Vec::new();
    let (manager, outcome) = run(&mut driver);
    assert_eq!(
        outcome,
        Some(BootstrapError::NoSuitableDevice(NoSuitableDeviceError::NoPhysicalDevice))
    );
    assert_eq!(manager.stage(), Stage::Failed);
    assert_eq!(
        driver.calls,
        vec![
            Call::Load,
            Call::CreateInstance,
            Call::EnumerateDevices,
            Call::DestroyInstance,
            Call::Finish
        ]
    );
    assert_eq!(driver.destroyed, driver.created);
}

#[test]
fn enumeration_without_a_combined_family_is_no_suitable_device() {
    let mut driver = MockDriver::new(None);
    driver.devices = vec![(77, vk::PhysicalDeviceType::DISCRETE_GPU.as_raw(), vec![3, 4])];
    let (manager, outcome) = run(&mut driver);
    assert_eq!(
        outcome,
        Some(BootstrapError::NoSuitableDevice(NoSuitableDeviceError::NoCombinedQueueFamily))
    );
    assert_eq!(
        manager.failure(),
        Some(Failure {
            call: Call::EnumerateDevices,
            error: BootstrapError::NoSuitableDevice(NoSuitableDeviceError::NoCombinedQueueFamily),
        })
    );
    assert_eq!(manager.state().selection, None);
    assert_eq!(driver.created.len(), 1);
    assert_eq!(driver.destroyed, driver.created);
}

#[test]
fn submit_once_with_empty_recording_returns_after_the_queue_is_idle() {
    let mut driver = MockDriver::new(None);
    let mut manager = LifecycleManager::new(config());
    while manager.stage() != Stage::Allocated {
        let event = driver.perform(manager.pending());
        manager.step(event);
    }
    assert!(!driver.submitted);
    while manager.stage() == Stage::Allocated {
        let waiting = manager.pending().call() == Call::WaitIdle;
        if waiting {
            assert!(driver.submitted);
            assert!(!driver.idle);
        }
        let event = driver.perform(manager.pending());
        manager.step(event);
        if manager.stage() != Stage::Allocated {
            assert!(waiting);
            assert!(driver.idle);
        }
    }
    assert_eq!(manager.stage(), Stage::Ready);
    assert_eq!(manager.failure(), None);
    assert!(driver.idle);
}

#[test]
fn ready_is_not_reached_while_the_queue_is_busy() {
    let mut driver = MockDriver::new(None);
    let mut manager = LifecycleManager::new(config());
    while manager.pending().call() != Call::WaitIdle {
        let event = driver.perform(manager.pending());
        manager.step(event);
    }
    let action = manager.step(Event::Submitted);
    assert_eq!(manager.stage(), Stage::Failed);
    assert_eq!(action, Action::DestroyCommandPool { device: 1002, pool: 1003 });
    assert_eq!(
        manager.failure(),
        Some(Failure { call: Call::WaitIdle, error: BootstrapError::Submission })
    );
}

#[test]
fn each_created_handle_is_destroyed_exactly_once() {
    let mut points: Vec<Option<Call>> = forward().into_iter().map(Some).collect();
    points.push(None);
    for fail_at in points {
        let mut driver = MockDriver::new(fail_at);
        let (mut manager, _) = run(&mut driver);
        for _ in 0..5 {
            let event = driver.perform(manager.pending());
            manager.step(event);
        }
        for handle in &driver.created {
            assert_eq!(driver.destroyed.iter().filter(|d| *d == handle).count(), 1);
        }
        assert_eq!(driver.destroyed.len(), driver.created.len());
    }
}

#[test]
fn an_answer_to_another_call_counts_as_failure() {
    let mut manager = LifecycleManager::new(config());
    let action = manager.step(Event::InstanceCreated { instance: 9 });
    assert_eq!(action, Action::Finish { error: Some(BootstrapError::Load) });
    assert_eq!(manager.stage(), Stage::Failed);
    assert_eq!(manager.state().instance, None);

    let mut manager = LifecycleManager::new(config());
    manager.step(Event::Loaded);
    manager.step(Event::InstanceCreated { instance: 9 });
    let action = manager.step(Event::DeviceCreated { device: 1, queue: 2 });
    assert_eq!(action, Action::DestroyInstance { instance: 9 });
    assert_eq!(
        manager.failure().map(|failure| failure.error),
        Some(BootstrapError::NoSuitableDevice(NoSuitableDeviceError::NoPhysicalDevice))
    );
    assert_eq!(manager.step(Event::Destroyed), Action::Finish {
        error: Some(BootstrapError::NoSuitableDevice(NoSuitableDeviceError::NoPhysicalDevice)),
    });
}

#[test]
fn teardown_goes_on_whatever_the_driver_answers() {
    let mut driver = MockDriver::new(None);
    let mut manager = LifecycleManager::new(config());
    while manager.stage() != Stage::Ready {
        let event = driver.perform(manager.pending());
        manager.step(event);
    }
    assert_eq!(manager.pending(), Action::DestroyCommandPool { device: 1002, pool: 1003 });
    assert_eq!(manager.step(Event::Failed), Action::DestroyDevice { device: 1002 });
    assert_eq!(manager.step(Event::Loaded), Action::DestroyInstance { instance: 1001 });
    assert_eq!(manager.step(Event::QueueIdle), Action::Finish { error: None });
    assert_eq!(manager.stage(), Stage::Destroyed);
}

#[test]
fn nothing_changes_after_the_end() {
    let mut driver = MockDriver::new(Some(Call::CreateDevice));
    let (mut manager, outcome) = run(&mut driver);
    let before = manager.state();
    assert_eq!(manager.step(Event::Loaded), Action::Finish { error: outcome });
    assert_eq!(manager.step(Event::Failed), Action::Finish { error: outcome });
    assert_eq!(manager.step(Event::InstanceCreated { instance: 3 }), Action::Finish {
        error: outcome,
    });
    assert_eq!(manager.state(), before);
    assert_eq!(manager.stage(), Stage::Failed);
}

#[test]
fn failed_submission_leaves_the_buffer_invalid_until_its_pool_is_gone() {
    let mut driver = MockDriver::new(Some(Call::EndRecording));
    let mut manager = LifecycleManager::new(config());
    while manager.pending().call() != Call::EndRecording {
        let event = driver.perform(manager.pending());
        manager.step(event);
    }
    assert_eq!(manager.state().buffer.unwrap().state, BufferState::Recording);
    let event = driver.perform(manager.pending());
    let action = manager.step(event);
    assert_eq!(action, Action::DestroyCommandPool { device: 1002, pool: 1003 });
    assert_eq!(manager.state().buffer, None);
    assert_eq!(manager.state().pool, None);
    assert!(manager.state().device.is_some());
}

#[test]
fn every_error_has_a_message() {
    assert_eq!(BootstrapError::Load.message(), "Vulkan loader unavailable");
    assert_eq!(BootstrapError::InstanceCreation.message(), "Instance creation failed");
    assert_eq!(
        BootstrapError::NoSuitableDevice(NoSuitableDeviceError::NoPhysicalDevice).message(),
        "No physical devices available"
    );
    assert_eq!(
        BootstrapError::NoSuitableDevice(NoSuitableDeviceError::NoCombinedQueueFamily).message(),
        "No main queue available"
    );
    assert_eq!(BootstrapError::DeviceCreation.message(), "Device creation failed");
    assert_eq!(BootstrapError::Allocation.message(), "Command buffer allocation failed");
    assert_eq!(BootstrapError::Submission.message(), "Submission failed");
}
