use ash::vk;
use gpu_bootstrap::descriptor::{rank, DeviceRank, PhysicalDeviceDescriptor, QueueFamilyDescriptor};
use gpu_bootstrap::error::NoSuitableDeviceError;
use gpu_bootstrap::handle::{api_version, Config};
use gpu_bootstrap::selector::{select, select_device, select_family, QueueFamilySelection};

fn family(flags: vk::QueueFlags) -> QueueFamilyDescriptor {
    QueueFamilyDescriptor { flags: flags.as_raw(), count: 1 }
}

fn combined() -> vk::QueueFlags {
    vk::QueueFlags::GRAPHICS | vk::QueueFlags::COMPUTE | vk::QueueFlags::TRANSFER
}

fn device(
    handle: u64,
    device_type: vk::PhysicalDeviceType,
    families: Vec<QueueFamilyDescriptor>,
) -> PhysicalDeviceDescriptor {
    PhysicalDeviceDescriptor { handle, device_type: device_type.as_raw(), families }
}

#[test]
fn rank_follows_the_device_type() {
    assert_eq!(rank(vk::PhysicalDeviceType::DISCRETE_GPU.as_raw()), DeviceRank::Preferred);
    assert_eq!(rank(vk::PhysicalDeviceType::INTEGRATED_GPU.as_raw()), DeviceRank::Acceptable);
    assert_eq!(rank(vk::PhysicalDeviceType::VIRTUAL_GPU.as_raw()), DeviceRank::LastResort);
    assert_eq!(rank(vk::PhysicalDeviceType::CPU.as_raw()), DeviceRank::LastResort);
    assert_eq!(rank(vk::PhysicalDeviceType::OTHER.as_raw()), DeviceRank::LastResort);
    assert_eq!(rank(-1), DeviceRank::LastResort);
    assert_eq!(rank(i32::MAX), DeviceRank::LastResort);
}

#[test]
fn rank_weights_are_zero_one_three() {
    assert_eq!(DeviceRank::Preferred.weight(), 0);
    assert_eq!(DeviceRank::Acceptable.weight(), 1);
    assert_eq!(DeviceRank::LastResort.weight(), 3);
}

#[test]
fn combined_family_needs_all_three_capabilities() {
    assert!(family(combined()).supports_combined());
    assert!(family(combined() | vk::QueueFlags::SPARSE_BINDING).supports_combined());
    assert!(!family(vk::QueueFlags::GRAPHICS | vk::QueueFlags::COMPUTE).supports_combined());
    assert!(!family(vk::QueueFlags::GRAPHICS | vk::QueueFlags::TRANSFER).supports_combined());
    assert!(!family(vk::QueueFlags::COMPUTE | vk::QueueFlags::TRANSFER).supports_combined());
    assert!(!family(vk::QueueFlags::SPARSE_BINDING).supports_combined());
    assert!(!family(vk::QueueFlags::empty()).supports_combined());
    assert!(QueueFamilyDescriptor { flags: u32::MAX, count: 0 }.supports_combined());
    assert!(QueueFamilyDescriptor { flags: 7, count: 4 }.supports_combined());
    assert!(!QueueFamilyDescriptor { flags: 0xffff_fff8, count: 4 }.supports_combined());
}

#[test]
fn discrete_wins_over_integrated_and_other() {
    let devices = vec![
        device(10, vk::PhysicalDeviceType::INTEGRATED_GPU, vec![family(combined())]),
        device(20, vk::PhysicalDeviceType::DISCRETE_GPU, vec![family(combined())]),
        device(30, vk::PhysicalDeviceType::OTHER, vec![family(combined())]),
    ];
    assert_eq!(select_device(&devices), Some(1));
    assert_eq!(select(&devices), Ok(QueueFamilySelection { physical_device: 20, queue_family: 0 }));
}

#[test]
fn first_of_two_discrete_devices_wins() {
    let devices = vec![
        device(7, vk::PhysicalDeviceType::DISCRETE_GPU, vec![family(combined())]),
        device(8, vk::PhysicalDeviceType::DISCRETE_GPU, vec![family(combined())]),
    ];
    assert_eq!(select_device(&devices), Some(0));
    assert_eq!(select(&devices), Ok(QueueFamilySelection { physical_device: 7, queue_family: 0 }));
}

#[test]
fn integrated_wins_over_other_kinds() {
    let devices = vec![
        device(1, vk::PhysicalDeviceType::CPU, vec![family(combined())]),
        device(2, vk::PhysicalDeviceType::VIRTUAL_GPU, vec![family(combined())]),
        device(3, vk::PhysicalDeviceType::INTEGRATED_GPU, vec![family(combined())]),
        device(4, vk::PhysicalDeviceType::INTEGRATED_GPU, vec![family(combined())]),
    ];
    assert_eq!(select_device(&devices), Some(2));
    assert_eq!(select(&devices).unwrap().physical_device, 3);
}

#[test]
fn first_of_the_last_resort_devices_wins_when_nothing_better_exists() {
    let devices = vec![
        device(1, vk::PhysicalDeviceType::CPU, vec![family(combined())]),
        device(2, vk::PhysicalDeviceType::OTHER, vec![family(combined())]),
    ];
    assert_eq!(select_device(&devices), Some(0));
}

#[test]
fn family_without_transfer_is_passed_over() {
    let families = vec![
        family(vk::QueueFlags::GRAPHICS | vk::QueueFlags::COMPUTE),
        family(combined()),
        family(combined()),
    ];
    assert_eq!(select_family(&families), Some(1));
    let devices = vec![device(5, vk::PhysicalDeviceType::DISCRETE_GPU, families)];
    assert_eq!(select(&devices), Ok(QueueFamilySelection { physical_device: 5, queue_family: 1 }));
}

#[test]
fn first_combined_family_is_chosen() {
    let families = vec![
        family(vk::QueueFlags::TRANSFER),
        family(vk::QueueFlags::COMPUTE | vk::QueueFlags::TRANSFER),
        family(vk::QueueFlags::GRAPHICS),
        family(combined() | vk::QueueFlags::SPARSE_BINDING),
        family(combined()),
    ];
    assert_eq!(select_family(&families), Some(3));
}

#[test]
fn no_family_at_all_selects_none() {
    assert_eq!(select_family(&Vec::new()), None);
}

#[test]
fn empty_device_list_is_no_suitable_device() {
    assert_eq!(select_device(&Vec::new()), None);
    assert_eq!(select(&Vec::new()), Err(NoSuitableDeviceError::NoPhysicalDevice));
}

#[test]
fn no_qualifying_family_is_no_suitable_device() {
    let devices = vec![device(
        5,
        vk::PhysicalDeviceType::DISCRETE_GPU,
        vec![
            family(vk::QueueFlags::GRAPHICS | vk::QueueFlags::COMPUTE),
            family(vk::QueueFlags::TRANSFER),
        ],
    )];
    assert_eq!(select(&devices), Err(NoSuitableDeviceError::NoCombinedQueueFamily));
    let bare = vec![device(6, vk::PhysicalDeviceType::DISCRETE_GPU, Vec::new())];
    assert_eq!(select(&bare), Err(NoSuitableDeviceError::NoCombinedQueueFamily));
}

#[test]
fn only_the_chosen_device_is_asked_for_a_family() {
    let devices = vec![
        device(1, vk::PhysicalDeviceType::INTEGRATED_GPU, vec![family(combined())]),
        device(2, vk::PhysicalDeviceType::DISCRETE_GPU, vec![family(vk::QueueFlags::COMPUTE)]),
    ];
    assert_eq!(select(&devices), Err(NoSuitableDeviceError::NoCombinedQueueFamily));
}

#[test]
fn selection_is_repeatable() {
    let devices = vec![
        device(10, vk::PhysicalDeviceType::OTHER, vec![family(combined())]),
        device(
            20,
            vk::PhysicalDeviceType::INTEGRATED_GPU,
            vec![family(vk::QueueFlags::TRANSFER), family(combined())],
        ),
        device(30, vk::PhysicalDeviceType::INTEGRATED_GPU, vec![family(combined())]),
    ];
    let first = select(&devices);
    let second = select(&devices);
    let third = select(&devices);
    assert_eq!(first, Ok(QueueFamilySelection { physical_device: 20, queue_family: 1 }));
    assert_eq!(first, second);
    assert_eq!(second, third);
}

#[test]
fn selection_errors_have_their_own_messages() {
    assert_eq!(NoSuitableDeviceError::NoPhysicalDevice.message(), "No physical devices available");
    assert_eq!(NoSuitableDeviceError::NoCombinedQueueFamily.message(), "No main queue available");
}

#[test]
fn api_version_is_packed_as_the_driver_expects() {
    assert_eq!(api_version(1, 4), 4_210_688);
    assert_eq!(api_version(1, 4), vk::make_api_version(0, 1, 4, 0));
    assert_eq!(api_version(1, 3), vk::API_VERSION_1_3);
    assert_eq!(api_version(1, 0), vk::API_VERSION_1_0);
    assert_eq!(api_version(0, 0), 0);
    assert_eq!(vk::api_version_major(api_version(1, 4)), 1);
    assert_eq!(vk::api_version_minor(api_version(1, 4)), 4);
}

#[test]
fn baseline_config_asks_for_version_1_4_and_synchronization2() {
    let config = Config::baseline();
    assert_eq!(config.api_version, 0x0040_4000);
    assert!(config.features.synchronization2);
}
