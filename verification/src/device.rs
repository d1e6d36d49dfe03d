//! Device selector: picks the physical device and the queue family that the
//! backend renders and presents with.
//!
//! The unverified shell enumerates the physical devices through the graphics
//! driver and reports, for each, whether it carries the presentation
//! (swapchain) extension set and what each of its queue families supports
//! against the target surface. Selection itself is decided here: first-match
//! over devices and, within the chosen device, first-match over queue
//! families; no scoring and no fallback. If nothing qualifies, startup must
//! fail before any device-dependent object is created.

use vstd::prelude::*;

verus! {

/// What one queue family supports, as reported by the driver for the target
/// surface.
#[derive(Clone, Copy, PartialEq, Eq, Structural, Debug)]
pub struct QueueFamily {
    /// The family's queue flags include graphics operations.
    pub supports_graphics: bool,
    /// The device reports presentation support for this family against the
    /// target surface.
    pub supports_present: bool,
}

/// What the selector reads of one enumerated physical device.
#[derive(Debug)]
pub struct PhysicalDeviceInfo {
    /// The device supports the presentation (swapchain) extension set.
    pub has_presentation_extension: bool,
    /// Queue family properties, in the driver's reported order.
    pub queue_families: Vec<QueueFamily>,
}

/// The selector's result: indices into the enumerated device sequence and
/// into the chosen device's queue family sequence.
#[derive(Clone, Copy, PartialEq, Eq, Structural, Debug)]
pub struct DeviceSelection {
    pub device_index: usize,
    pub queue_family_index: usize,
}

/// A queue family qualifies when it can both draw and present.
pub open spec fn family_qualifies(f: QueueFamily) -> bool {
    f.supports_graphics && f.supports_present
}

/// A device qualifies when it carries the presentation extension and has at
/// least one qualifying queue family.
pub open spec fn device_qualifies(d: PhysicalDeviceInfo) -> bool {
    &&& d.has_presentation_extension
    &&& exists|i: int|
        0 <= i < d.queue_families@.len() && family_qualifies(d.queue_families@[i])
}

/// Index of the first qualifying queue family of `d`, if any.
fn find_queue_family(d: &PhysicalDeviceInfo) -> (r: Option<usize>)
    ensures
        r is Some <==> exists|i: int|
            0 <= i < d.queue_families@.len() && family_qualifies(d.queue_families@[i]),
        r matches Some(i) ==> {
            &&& i < d.queue_families@.len()
            &&& family_qualifies(d.queue_families@[i as int])
            &&& forall|j: int| 0 <= j < i ==> !family_qualifies(d.queue_families@[j])
        },
{
    let n = d.queue_families.len();
    let mut i: usize = 0;
    while i < n
        invariant
            i <= n,
            n == d.queue_families@.len(),
            forall|j: int| 0 <= j < i ==> !family_qualifies(d.queue_families@[j]),
        decreases n - i,
    {
        let f = d.queue_families[i];
        if f.supports_graphics && f.supports_present {
            return Some(i);
        }
        i = i + 1;
    }
    None
}

/// Select the device and queue family to render with: the first enumerated
/// device that carries the presentation extension and exposes a queue family
/// that both draws and presents, together with the first such family in it.
///
/// `None` exactly when no enumerated device qualifies; startup must then fail
/// before any device-dependent object is created.
pub fn select_device(devices: &Vec<PhysicalDeviceInfo>) -> (r: Option<DeviceSelection>)
    ensures
        r is Some <==> exists|i: int| 0 <= i < devices@.len() && device_qualifies(devices@[i]),
        r matches Some(s) ==> {
            &&& s.device_index < devices@.len()
            &&& device_qualifies(devices@[s.device_index as int])
            &&& devices@[s.device_index as int].has_presentation_extension
            &&& forall|i: int| 0 <= i < s.device_index ==> !device_qualifies(devices@[i])
            &&& s.queue_family_index < devices@[s.device_index as int].queue_families@.len()
            &&& family_qualifies(
                devices@[s.device_index as int].queue_families@[s.queue_family_index as int],
            )
            &&& forall|j: int| 0 <= j < s.queue_family_index ==> !family_qualifies(
                devices@[s.device_index as int].queue_families@[j],
            )
        },
{
    let n = devices.len();
    let mut i: usize = 0;
    while i < n
        invariant
            i <= n,
            n == devices@.len(),
            forall|j: int| 0 <= j < i ==> !device_qualifies(devices@[j]),
        decreases n - i,
    {
        let d = &devices[i];
        if d.has_presentation_extension {
            if let Some(q) = find_queue_family(d) {
                return Some(DeviceSelection { device_index: i, queue_family_index: q });
            }
        }
        i = i + 1;
    }
    None
}

} // verus!
