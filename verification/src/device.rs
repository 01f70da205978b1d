//! Choosing the device and the queue family the engine runs on.

use crate::codes::{queue_graphics, queue_graphics_bit};
use crate::constants::DeviceExtension;
use vstd::prelude::*;

verus! {

/// What a device reports about one of its queue families.
#[derive(Clone, Copy, PartialEq, Eq, Structural, Debug)]
pub struct QueueFamilyInfo {
    /// The number of queues of the family.
    pub queue_count: u32,
    /// The capabilities of the family, as bits.
    pub flags: u32,
    /// Whether the family can present to the surface.
    pub supports_present: bool,
}

/// What is known about a device before it is chosen.
#[derive(Clone, Debug)]
pub struct DeviceInfo {
    pub queue_families: Vec<QueueFamilyInfo>,
    /// Whether the device offers every required extension.
    pub has_required_extensions: bool,
    /// The number of formats it supports for the surface.
    pub format_count: u32,
    /// The number of present modes it supports for the surface.
    pub present_mode_count: u32,
}

/// The device and queue family that were chosen, by their positions in the
/// lists reported by the driver.
#[derive(Clone, Copy, PartialEq, Eq, Structural, Debug)]
pub struct DeviceChoice {
    pub device: usize,
    pub queue_family: u32,
}

/// A queue family the engine can use: it has a queue, takes graphics commands,
/// and can present to the surface.
pub open spec fn family_usable(family: QueueFamilyInfo) -> bool {
    &&& family.queue_count > 0
    &&& family.flags & queue_graphics_bit() != 0
    &&& family.supports_present
}

/// `at` is the first usable family of `families`.
pub open spec fn is_first_usable_family(families: Seq<QueueFamilyInfo>, at: int) -> bool {
    &&& 0 <= at < families.len()
    &&& family_usable(families[at])
    &&& forall|j: int| 0 <= j < at ==> !family_usable(#[trigger] families[j])
}

/// `families` holds a usable family.
pub open spec fn has_usable_family(families: Seq<QueueFamilyInfo>) -> bool {
    exists|j: int| 0 <= j < families.len() && family_usable(#[trigger] families[j])
}

/// A device the engine can run on: it has a usable queue family, offers the
/// required extensions, and supports at least one format and one present mode
/// for the surface. The driver numbers queue families with 32 bits, so a
/// longer list of families is not one of a device.
pub open spec fn device_suitable(device: DeviceInfo) -> bool {
    &&& device.queue_families@.len() <= u32::MAX
    &&& has_usable_family(device.queue_families@)
    &&& device.has_required_extensions
    &&& device.format_count > 0
    &&& device.present_mode_count > 0
}

/// `name` is among the names in `available`.
pub open spec fn offered(name: Seq<char>, available: Seq<String>) -> bool {
    exists|j: int| 0 <= j < available.len() && (#[trigger] available[j])@ == name
}

/// Every name of `required` is among the names in `available`.
pub open spec fn all_offered(required: Seq<&'static str>, available: Seq<String>) -> bool {
    forall|i: int| 0 <= i < required.len() ==> offered((#[trigger] required[i])@, available)
}

/// Whether `name` is among the names in `available`.
pub fn is_offered(name: &str, available: &Vec<String>) -> (b: bool)
    ensures
        b == offered(name@, available@),
{
    let wanted = name.to_owned();
    let mut j: usize = 0;
    while j < available.len()
        invariant
            j <= available@.len(),
            wanted@ == name@,
            forall|k: int| 0 <= k < j ==> (#[trigger] available@[k])@ != name@,
        decreases available@.len() - j,
    {
        if available[j] == wanted {
            return true;
        }
        j = j + 1;
    }
    false
}

/// Whether every name of `required` is among the names in `available`.
pub fn are_all_offered(required: &[&'static str; 1], available: &Vec<String>) -> (b: bool)
    ensures
        b == all_offered(required@, available@),
{
    let mut i: usize = 0;
    while i < required.len()
        invariant
            i <= required@.len(),
            forall|k: int| 0 <= k < i ==> offered((#[trigger] required@[k])@, available@),
        decreases required@.len() - i,
    {
        if !is_offered(required[i], available) {
            assert(!offered(required@[i as int]@, available@));
            return false;
        }
        i = i + 1;
    }
    true
}

/// Whether a device that offers the extensions `available` offers every
/// extension the engine requires.
pub fn offers_required_extensions(required: &DeviceExtension, available: &Vec<String>) -> (b: bool)
    ensures
        b == all_offered(required.names@, available@),
{
    are_all_offered(&required.names, available)
}

/// Whether the engine can use the queue family.
pub fn is_family_usable(family: &QueueFamilyInfo) -> (b: bool)
    ensures
        b == family_usable(*family),
{
    family.queue_count > 0 && (family.flags & queue_graphics()) != 0 && family.supports_present
}

/// Finds the first queue family the engine can use. `None` where there is
/// none.
pub fn find_queue_family(families: &Vec<QueueFamilyInfo>) -> (found: Option<u32>)
    ensures
        found is Some <==> has_usable_family(families@) && families@.len() <= u32::MAX,
        found matches Some(at) ==> is_first_usable_family(families@, at as int),
{
    if families.len() > u32::MAX as usize {
        return None;
    }
    let mut i: usize = 0;
    while i < families.len()
        invariant
            i <= families@.len(),
            families@.len() <= u32::MAX,
            forall|j: int| 0 <= j < i ==> !family_usable(#[trigger] families@[j]),
        decreases families@.len() - i,
    {
        if is_family_usable(&families[i]) {
            return Some(i as u32);
        }
        i = i + 1;
    }
    None
}

/// Whether the engine can run on the device.
pub fn is_device_suitable(device: &DeviceInfo) -> (b: bool)
    ensures
        b == device_suitable(*device),
{
    find_queue_family(&device.queue_families).is_some() && device.has_required_extensions
        && device.format_count > 0 && device.present_mode_count > 0
}

/// Chooses the first device the engine can run on, and its first usable queue
/// family. `None` where no device will do: the engine cannot start.
pub fn select_physical_device(devices: &Vec<DeviceInfo>) -> (choice: Option<DeviceChoice>)
    ensures
        choice is None <==> forall|i: int|
            0 <= i < devices@.len() ==> !device_suitable(#[trigger] devices@[i]),
        choice matches Some(chosen) ==> {
            &&& chosen.device < devices@.len()
            &&& device_suitable(devices@[chosen.device as int])
            &&& forall|j: int| 0 <= j < chosen.device ==> !device_suitable(#[trigger] devices@[j])
            &&& is_first_usable_family(
                devices@[chosen.device as int].queue_families@,
                chosen.queue_family as int,
            )
        },
{
    let mut i: usize = 0;
    while i < devices.len()
        invariant
            i <= devices@.len(),
            forall|j: int| 0 <= j < i ==> !device_suitable(#[trigger] devices@[j]),
        decreases devices@.len() - i,
    {
        if is_device_suitable(&devices[i]) {
            match find_queue_family(&devices[i].queue_families) {
                Some(queue_family) => {
                    return Some(DeviceChoice { device: i, queue_family });
                },
                None => {},
            }
        }
        i = i + 1;
    }
    None
}

} // verus!
