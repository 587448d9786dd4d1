//! Choice of the physical device and of its queue family.
//!
//! The policy is fixed and simple: the device of the lowest rank weight wins,
//! the first one among equals; on it, the first queue family that has
//! graphics, compute and transfer at once. Nothing else is weighed.

use vstd::prelude::*;
use crate::descriptor::{rank, PhysicalDeviceDescriptor, QueueFamilyDescriptor};
use crate::error::NoSuitableDeviceError;

verus! {

/// The chosen physical device and queue family. Feeds device creation.
#[derive(Clone, Copy, Debug, PartialEq, Eq, Structural)]
pub struct QueueFamilySelection {
    /// Handle of the chosen physical device.
    pub physical_device: u64,
    /// Index of the chosen queue family on that device.
    pub queue_family: u32,
}

/// Rank weight of the device at index `i`.
pub open spec fn weight_at(devices: Seq<PhysicalDeviceDescriptor>, i: int) -> int {
    devices[i].spec_rank().spec_weight() as int
}

/// `i` is the device that the policy picks: none weighs less, and none
/// before it weighs the same.
pub open spec fn is_chosen_device(devices: Seq<PhysicalDeviceDescriptor>, i: int) -> bool {
    &&& 0 <= i < devices.len()
    &&& forall|j: int| 0 <= j < devices.len() ==> weight_at(devices, i) <= #[trigger] weight_at(devices, j)
    &&& forall|j: int| 0 <= j < i ==> weight_at(devices, i) < #[trigger] weight_at(devices, j)
}

/// `k` is the family that the policy picks: the first combined one. An index
/// that does not fit in 32 bits cannot be named to the driver and is never
/// picked.
pub open spec fn is_chosen_family(families: Seq<QueueFamilyDescriptor>, k: int) -> bool {
    &&& 0 <= k < families.len()
    &&& k <= u32::MAX
    &&& families[k].is_combined()
    &&& forall|j: int| 0 <= j < k ==> !(#[trigger] families[j]).is_combined()
}

/// `s` is what the policy selects from `devices`.
pub open spec fn is_selection(devices: Seq<PhysicalDeviceDescriptor>, s: QueueFamilySelection) -> bool {
    exists|i: int|
        {
            &&& #[trigger] is_chosen_device(devices, i)
            &&& s.physical_device == devices[i].handle
            &&& is_chosen_family(devices[i].families@, s.queue_family as int)
        }
}

/// Index of the device that the policy picks from a list that is not empty.
pub open spec fn chosen_device(devices: Seq<PhysicalDeviceDescriptor>) -> int {
    choose|i: int| is_chosen_device(devices, i)
}

/// Index of the family that the policy picks, if there is one.
pub open spec fn chosen_family(families: Seq<QueueFamilyDescriptor>) -> Option<int> {
    if exists|k: int| is_chosen_family(families, k) {
        Some(choose|k: int| is_chosen_family(families, k))
    } else {
        None
    }
}

/// The outcome of selection on an enumerated list.
pub open spec fn selection_of(devices: Seq<PhysicalDeviceDescriptor>) -> Result<
    QueueFamilySelection,
    NoSuitableDeviceError,
> {
    if devices.len() == 0 {
        Err(NoSuitableDeviceError::NoPhysicalDevice)
    } else {
        let device = devices[chosen_device(devices)];
        match chosen_family(device.families@) {
            Some(k) => Ok(
                QueueFamilySelection { physical_device: device.handle, queue_family: k as u32 },
            ),
            None => Err(NoSuitableDeviceError::NoCombinedQueueFamily),
        }
    }
}

/// At most one device is the chosen one.
pub proof fn lemma_chosen_device_unique(devices: Seq<PhysicalDeviceDescriptor>, a: int, b: int)
    requires
        is_chosen_device(devices, a),
        is_chosen_device(devices, b),
    ensures
        a == b,
{
    if a < b {
        assert(weight_at(devices, b) < weight_at(devices, a));
        assert(weight_at(devices, a) <= weight_at(devices, b));
    } else if b < a {
        assert(weight_at(devices, a) < weight_at(devices, b));
        assert(weight_at(devices, b) <= weight_at(devices, a));
    }
}

/// At most one family is the chosen one.
pub proof fn lemma_chosen_family_unique(families: Seq<QueueFamilyDescriptor>, a: int, b: int)
    requires
        is_chosen_family(families, a),
        is_chosen_family(families, b),
    ensures
        a == b,
{
    if a < b {
        assert(!families[a].is_combined());
    } else if b < a {
        assert(!families[b].is_combined());
    }
}

/// Selection is a function of the enumerated list: two selections from the
/// same list are the same selection.
pub proof fn lemma_selection_deterministic(
    devices: Seq<PhysicalDeviceDescriptor>,
    first: QueueFamilySelection,
    second: QueueFamilySelection,
)
    requires
        is_selection(devices, first),
        is_selection(devices, second),
    ensures
        first == second,
{
    let i = choose|i: int|
        {
            &&& #[trigger] is_chosen_device(devices, i)
            &&& first.physical_device == devices[i].handle
            &&& is_chosen_family(devices[i].families@, first.queue_family as int)
        };
    let j = choose|j: int|
        {
            &&& #[trigger] is_chosen_device(devices, j)
            &&& second.physical_device == devices[j].handle
            &&& is_chosen_family(devices[j].families@, second.queue_family as int)
        };
    lemma_chosen_device_unique(devices, i, j);
    lemma_chosen_family_unique(
        devices[i].families@,
        first.queue_family as int,
        second.queue_family as int,
    );
}

/// What [`selection_of`] yields is exactly what the policy selects: `Ok` with
/// the one selection there is, `Err` when there is none.
pub proof fn lemma_selection_of_is_selection(devices: Seq<PhysicalDeviceDescriptor>)
    ensures
        match selection_of(devices) {
            Ok(s) => is_selection(devices, s),
            Err(_) => forall|s: QueueFamilySelection| !is_selection(devices, s),
        },
{
    if devices.len() == 0 {
        assert forall|s: QueueFamilySelection| !is_selection(devices, s) by {
            if is_selection(devices, s) {
                let i = choose|i: int| #[trigger] is_chosen_device(devices, i);
                assert(false);
            }
        }
    } else {
        lemma_some_device_is_chosen(devices, devices.len() as int);
        assert(devices.take(devices.len() as int) =~= devices);
        let best = chosen_device(devices);
        assert(is_chosen_device(devices, best));
        let families = devices[best].families@;
        match chosen_family(families) {
            Some(k) => {
                assert(is_chosen_family(families, k));
                assert(k as u32 as int == k);
            },
            None => {
                assert forall|s: QueueFamilySelection| !is_selection(devices, s) by {
                    if is_selection(devices, s) {
                        let i = choose|i: int|
                            {
                                &&& #[trigger] is_chosen_device(devices, i)
                                &&& s.physical_device == devices[i].handle
                                &&& is_chosen_family(devices[i].families@, s.queue_family as int)
                            };
                        lemma_chosen_device_unique(devices, i, best);
                        assert(is_chosen_family(families, s.queue_family as int));
                    }
                }
            },
        }
    }
}

/// Among the first `n` devices, `n > 0`, one is lightest and first among
/// the lightest.
proof fn lemma_some_device_is_chosen(devices: Seq<PhysicalDeviceDescriptor>, n: int)
    requires
        0 < n <= devices.len(),
    ensures
        is_chosen_device(devices.take(n), chosen_device(devices.take(n))),
    decreases n,
{
    let head = devices.take(n);
    if n == 1 {
        assert(is_chosen_device(head, 0));
    } else {
        lemma_some_device_is_chosen(devices, n - 1);
        let shorter = devices.take(n - 1);
        let prev = chosen_device(shorter);
        assert forall|j: int| 0 <= j < n - 1 implies weight_at(head, j) == weight_at(shorter, j) by {}
        if weight_at(head, n - 1) < weight_at(head, prev) {
            assert forall|j: int| 0 <= j < n implies weight_at(head, n - 1) <= #[trigger] weight_at(
                head,
                j,
            ) by {
                if j < n - 1 {
                    assert(weight_at(shorter, prev) <= weight_at(shorter, j));
                }
            }
            assert forall|j: int| 0 <= j < n - 1 implies weight_at(head, n - 1) < #[trigger] weight_at(
                head,
                j,
            ) by {
                assert(weight_at(shorter, prev) <= weight_at(shorter, j));
            }
            assert(is_chosen_device(head, n - 1));
        } else {
            assert forall|j: int| 0 <= j < n implies weight_at(head, prev) <= #[trigger] weight_at(
                head,
                j,
            ) by {
                if j < n - 1 {
                    assert(weight_at(shorter, prev) <= weight_at(shorter, j));
                }
            }
            assert forall|j: int| 0 <= j < prev implies weight_at(head, prev) < #[trigger] weight_at(
                head,
                j,
            ) by {
                assert(weight_at(shorter, prev) < weight_at(shorter, j));
            }
            assert(is_chosen_device(head, prev));
        }
    }
}

/// Picks the device of the lowest rank weight, the first one among equals.
/// `None` exactly on an empty list.
pub fn select_device(devices: &Vec<PhysicalDeviceDescriptor>) -> (best: Option<usize>)
    ensures
        best is None <==> devices@.len() == 0,
        best matches Some(i) ==> is_chosen_device(devices@, i as int) && i as int == chosen_device(
            devices@,
        ),
{
    let n: usize = devices.len();
    if n == 0 {
        return None;
    }
    let mut best: usize = 0;
    let mut best_weight: u32 = rank(devices[0].device_type).weight();
    let mut i: usize = 1;
    while i < n
        invariant
            n == devices@.len(),
            0 <= best < i <= n,
            best_weight as int == weight_at(devices@, best as int),
            forall|j: int| 0 <= j < i ==> weight_at(devices@, best as int) <= #[trigger] weight_at(devices@, j),
            forall|j: int| 0 <= j < best ==> weight_at(devices@, best as int) < #[trigger] weight_at(devices@, j),
        decreases n - i,
    {
        let weight: u32 = rank(devices[i].device_type).weight();
        if weight < best_weight {
            best = i;
            best_weight = weight;
        }
        i = i + 1;
    }
    proof {
        lemma_chosen_device_unique(devices@, best as int, chosen_device(devices@));
    }
    Some(best)
}

/// Picks the first queue family that has graphics, compute and transfer at
/// once. `None` exactly when no family within the 32-bit index range has.
pub fn select_family(families: &Vec<QueueFamilyDescriptor>) -> (found: Option<u32>)
    ensures
        found matches Some(k) ==> is_chosen_family(families@, k as int),
        found is None ==> forall|k: int| !is_chosen_family(families@, k),
        found == (match chosen_family(families@) {
            Some(k) => Some(k as u32),
            None => None,
        }),
{
    let n: usize = families.len();
    let mut i: usize = 0;
    while i < n
        invariant
            n == families@.len(),
            0 <= i <= n,
            i <= u32::MAX + 1,
            forall|j: int| 0 <= j < i ==> !(#[trigger] families@[j]).is_combined(),
        decreases n - i,
    {
        if i > u32::MAX as usize {
            proof {
                assert forall|k: int| !is_chosen_family(families@, k) by {
                    if is_chosen_family(families@, k) {
                        assert(!families@[k].is_combined());
                    }
                }
            }
            return None;
        }
        if families[i].supports_combined() {
            proof {
                assert(is_chosen_family(families@, i as int));
                lemma_chosen_family_unique(
                    families@,
                    i as int,
                    choose|k: int| is_chosen_family(families@, k),
                );
            }
            return Some(i as u32);
        }
        i = i + 1;
    }
    proof {
        assert forall|k: int| !is_chosen_family(families@, k) by {
            if is_chosen_family(families@, k) {
                assert(!families@[k].is_combined());
            }
        }
    }
    None
}

/// Selects the physical device and the queue family for the logical device.
///
/// Fails with `NoPhysicalDevice` exactly on an empty list, and with
/// `NoCombinedQueueFamily` exactly when the chosen device has no combined
/// family; the other devices are not tried.
pub fn select(devices: &Vec<PhysicalDeviceDescriptor>) -> (result: Result<
    QueueFamilySelection,
    NoSuitableDeviceError,
>)
    ensures
        result == selection_of(devices@),
        result matches Ok(s) ==> is_selection(devices@, s),
        result is Err ==> forall|s: QueueFamilySelection| !is_selection(devices@, s),
        result == Err::<QueueFamilySelection, _>(NoSuitableDeviceError::NoPhysicalDevice)
            <==> devices@.len() == 0,
        result == Err::<QueueFamilySelection, _>(NoSuitableDeviceError::NoCombinedQueueFamily)
            <==> devices@.len() > 0 && forall|k: int|
            !is_chosen_family(devices@[chosen_device(devices@)].families@, k),
{
    proof {
        lemma_selection_of_is_selection(devices@);
    }
    match select_device(devices) {
        None => Err(NoSuitableDeviceError::NoPhysicalDevice),
        Some(best) => {
            let device = &devices[best];
            match select_family(&device.families) {
                Some(family) => Ok(
                    QueueFamilySelection { physical_device: device.handle, queue_family: family },
                ),
                None => Err(NoSuitableDeviceError::NoCombinedQueueFamily),
            }
        },
    }
}

} // verus!
