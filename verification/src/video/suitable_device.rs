//! Choosing the physical device to render with, and its queue families.
use vstd::prelude::*;

use crate::file::owned;
use crate::least::lemma_greatest_witness;
use crate::least::lemma_least_witness;
use crate::name_order::views;
use crate::ris_error::new_err;
use crate::ris_error::RisErrorView;
use crate::ris_error::RisResult;
use crate::video::vk::PHYSICAL_DEVICE_TYPE_CPU;
use crate::video::vk::PHYSICAL_DEVICE_TYPE_DISCRETE_GPU;
use crate::video::vk::PHYSICAL_DEVICE_TYPE_INTEGRATED_GPU;
use crate::video::vk::PHYSICAL_DEVICE_TYPE_OTHER;
use crate::video::vk::PHYSICAL_DEVICE_TYPE_VIRTUAL_GPU;

verus! {

/// How well a device of the given type suits rendering, lower being better;
/// nothing for a type the renderer does not know.
pub open spec fn spec_suitability(device_type: i32) -> Option<usize> {
    if device_type == PHYSICAL_DEVICE_TYPE_DISCRETE_GPU {
        Some(0)
    } else if device_type == PHYSICAL_DEVICE_TYPE_INTEGRATED_GPU {
        Some(1)
    } else if device_type == PHYSICAL_DEVICE_TYPE_VIRTUAL_GPU {
        Some(2)
    } else if device_type == PHYSICAL_DEVICE_TYPE_CPU {
        Some(3)
    } else if device_type == PHYSICAL_DEVICE_TYPE_OTHER {
        Some(4)
    } else {
        None
    }
}

/// How well a device of the given type suits rendering.
pub fn suitability(device_type: i32) -> (res: Option<usize>)
    ensures
        res == spec_suitability(device_type),
{
    if device_type == PHYSICAL_DEVICE_TYPE_DISCRETE_GPU {
        Some(0)
    } else if device_type == PHYSICAL_DEVICE_TYPE_INTEGRATED_GPU {
        Some(1)
    } else if device_type == PHYSICAL_DEVICE_TYPE_VIRTUAL_GPU {
        Some(2)
    } else if device_type == PHYSICAL_DEVICE_TYPE_CPU {
        Some(3)
    } else if device_type == PHYSICAL_DEVICE_TYPE_OTHER {
        Some(4)
    } else {
        None
    }
}

/// Whether every name in `required` is among `available`.
pub fn supports_required_extensions(required: &Vec<String>, available: &Vec<String>) -> (res: bool)
    ensures
        res == forall|i: int|
            0 <= i < required@.len() ==> views(available@).contains(#[trigger] views(required@)[i]),
{
    let mut i: usize = 0;
    while i < required.len()
        invariant
            i <= required@.len(),
            forall|k: int|
                0 <= k < i ==> views(available@).contains(#[trigger] views(required@)[k]),
        decreases required@.len() - i,
    {
        let mut found = false;
        let mut j: usize = 0;
        while j < available.len() && !found
            invariant
                j <= available@.len(),
                i < required@.len(),
                found ==> views(available@).contains(views(required@)[i as int]),
                !found ==> forall|k: int| 0 <= k < j ==> views(available@)[k] != views(required@)[i as int],
            decreases available@.len() - j,
        {
            if available[j] == required[i] {
                found = true;
                assert(views(available@)[j as int] == views(required@)[i as int]);
            }
            j = j + 1;
        }
        if !found {
            assert(!views(available@).contains(views(required@)[i as int]));
            return false;
        }
        i = i + 1;
    }
    true
}

/// What a queue family of a device offers.
#[derive(Clone, Copy)]
pub struct QueueFamilySupport {
    pub queue_count: u32,
    /// Whether it runs graphics work.
    pub graphics: bool,
    /// Whether it can present to the renderer's surface.
    pub present: bool,
}

/// Whether queue family `i` has queues and runs graphics work.
pub open spec fn graphics_family(families: Seq<QueueFamilySupport>, i: int) -> bool {
    0 <= i < families.len() && families[i].queue_count != 0 && families[i].graphics
}

/// Whether queue family `i` has queues and can present.
pub open spec fn present_family(families: Seq<QueueFamilySupport>, i: int) -> bool {
    0 <= i < families.len() && families[i].queue_count != 0 && families[i].present
}

/// Whether queue family `i` has queues and does both.
pub open spec fn complete_family(families: Seq<QueueFamilySupport>, i: int) -> bool {
    graphics_family(families, i) && present_family(families, i)
}

/// The queue families used for graphics and for presentation: the first
/// family that does both when there is one; otherwise the last family that
/// runs graphics work and the last that can present; nothing when either is
/// missing.
pub open spec fn spec_choose_queue_families(families: Seq<QueueFamilySupport>) -> Option<(int, int)> {
    if exists|i: int| complete_family(families, i) {
        let i = choose|i: int|
            complete_family(families, i) && forall|j: int| 0 <= j < i ==> !complete_family(families, j);
        Some((i, i))
    } else if (exists|g: int| graphics_family(families, g)) && (exists|p: int| present_family(families, p)) {
        let g = choose|g: int|
            graphics_family(families, g) && forall|j: int| g < j ==> !graphics_family(families, j);
        let p = choose|p: int|
            present_family(families, p) && forall|j: int| p < j ==> !present_family(families, j);
        Some((g, p))
    } else {
        None
    }
}

/// [`spec_choose_queue_families`] picks families exactly when the device has
/// a family that does both, or one for graphics and one for presentation:
/// the first complete family for both when there is one, otherwise the last
/// graphics family and the last present family.
pub proof fn lemma_choose_queue_families(families: Seq<QueueFamilySupport>)
    ensures
        (spec_choose_queue_families(families) is Some) == ((exists|i: int|
            complete_family(families, i)) || ((exists|g: int| graphics_family(families, g)) && (
        exists|p: int| present_family(families, p)))),
        spec_choose_queue_families(families) matches Some((g, p)) ==> graphics_family(families, g)
            && present_family(families, p),
        (exists|i: int| complete_family(families, i)) ==> (spec_choose_queue_families(families) matches Some(
            (g, p),
        ) && g == p && forall|j: int| 0 <= j < g ==> !complete_family(families, j)),
        !(exists|i: int| complete_family(families, i)) ==> (spec_choose_queue_families(families) matches Some(
            (g, p),
        ) ==> (forall|j: int| g < j ==> !graphics_family(families, j)) && (forall|j: int|
            p < j ==> !present_family(families, j))),
{
    let n = families.len() as int;
    if exists|i: int| complete_family(families, i) {
        let k = choose|i: int| complete_family(families, i);
        let c = |i: int| complete_family(families, i);
        lemma_least_witness(c, 0, k);
        let w = choose|i: int| 0 <= i <= k && #[trigger] c(i) && forall|j: int| 0 <= j < i ==> !#[trigger] c(j);
        assert(complete_family(families, w) && forall|j: int| 0 <= j < w ==> !complete_family(families, j)) by {
            assert forall|j: int| 0 <= j < w implies !complete_family(families, j) by {
                assert(!c(j));
            }
        }
    } else if (exists|g: int| graphics_family(families, g)) && (exists|p: int| present_family(families, p)) {
        let kg = choose|g: int| graphics_family(families, g);
        let gp = |i: int| graphics_family(families, i);
        assert forall|j: int| n <= j implies !#[trigger] gp(j) by {}
        lemma_greatest_witness(gp, kg, n);
        let wg = choose|i: int| kg <= i < n && #[trigger] gp(i) && forall|j: int| i < j ==> !#[trigger] gp(j);
        assert(graphics_family(families, wg) && forall|j: int| wg < j ==> !graphics_family(families, j)) by {
            assert forall|j: int| wg < j implies !graphics_family(families, j) by {
                assert(!gp(j));
            }
        }
        let kp = choose|p: int| present_family(families, p);
        let pp = |i: int| present_family(families, i);
        assert forall|j: int| n <= j implies !#[trigger] pp(j) by {}
        lemma_greatest_witness(pp, kp, n);
        let wp = choose|i: int| kp <= i < n && #[trigger] pp(i) && forall|j: int| i < j ==> !#[trigger] pp(j);
        assert(present_family(families, wp) && forall|j: int| wp < j ==> !present_family(families, j)) by {
            assert forall|j: int| wp < j implies !present_family(families, j) by {
                assert(!pp(j));
            }
        }
    }
}

/// The queue families used for graphics and for presentation.
pub fn choose_queue_families(families: &[QueueFamilySupport]) -> (res: Option<(u32, u32)>)
    requires
        families@.len() <= u32::MAX,
    ensures
        match spec_choose_queue_families(families@) {
            Some((g, p)) => res == Some((g as u32, p as u32)),
            None => res is None,
        },
{
    let n = families.len();
    let mut i: usize = 0;
    while i < n
        invariant
            n == families@.len(),
            i <= n,
            forall|j: int| 0 <= j < i ==> !complete_family(families@, j),
        decreases n - i,
    {
        let f = families[i];
        if f.queue_count != 0 && f.graphics && f.present {
            proof {
                let c = choose|c: int|
                    complete_family(families@, c) && forall|j: int|
                        0 <= j < c ==> !complete_family(families@, j);
                assert(complete_family(families@, i as int));
                assert(c == i);
            }
            return Some((i as u32, i as u32));
        }
        i = i + 1;
    }
    let mut graphics: Option<usize> = None;
    let mut present: Option<usize> = None;
    let mut k: usize = 0;
    while k < n
        invariant
            n == families@.len(),
            k <= n,
            match graphics {
                Some(g) => g < k && graphics_family(families@, g as int) && forall|j: int|
                    g < j < k ==> !graphics_family(families@, j),
                None => forall|j: int| 0 <= j < k ==> !graphics_family(families@, j),
            },
            match present {
                Some(p) => p < k && present_family(families@, p as int) && forall|j: int|
                    p < j < k ==> !present_family(families@, j),
                None => forall|j: int| 0 <= j < k ==> !present_family(families@, j),
            },
        decreases n - k,
    {
        let f = families[k];
        if f.queue_count != 0 {
            if f.graphics {
                graphics = Some(k);
            }
            if f.present {
                present = Some(k);
            }
        }
        k = k + 1;
    }
    assert(!exists|c: int| complete_family(families@, c));
    match (graphics, present) {
        (Some(g), Some(p)) => {
            proof {
                let gg = choose|gg: int|
                    graphics_family(families@, gg) && forall|j: int| gg < j ==> !graphics_family(families@, j);
                assert(graphics_family(families@, g as int));
                if gg < g {
                } else if gg > g {
                }
                let pp = choose|pp: int|
                    present_family(families@, pp) && forall|j: int| pp < j ==> !present_family(families@, j);
                assert(present_family(families@, p as int));
                if pp < p {
                } else if pp > p {
                }
            }
            Some((g as u32, p as u32))
        },
        _ => None,
    }
}

/// What the renderer learns of a physical device before choosing one.
pub struct PhysicalDeviceInfo {
    pub device_type: i32,
    pub supports_required_extensions: bool,
    pub surface_format_count: usize,
    pub present_mode_count: usize,
    pub queue_families: Vec<QueueFamilySupport>,
}

/// A device the renderer can use, by its position in the list of devices.
#[derive(Clone, Copy, PartialEq, Eq, Structural, Debug)]
pub struct SuitableDevice {
    /// Lower is better; a discrete GPU has 0.
    pub suitability: usize,
    pub graphics_queue_family: u32,
    pub present_queue_family: u32,
    pub device_index: usize,
}

/// The device at position `index` with the given information as a suitable
/// device: a known type, the required extensions, at least one surface
/// format and present mode, and queue families for graphics and presentation.
pub open spec fn spec_rate_device(info: PhysicalDeviceInfo, index: usize) -> Option<SuitableDevice> {
    match spec_suitability(info.device_type) {
        None => None,
        Some(s) => if !info.supports_required_extensions || info.surface_format_count == 0
            || info.present_mode_count == 0 {
            None
        } else {
            match spec_choose_queue_families(info.queue_families@) {
                None => None,
                Some((g, p)) => Some(
                    SuitableDevice {
                        suitability: s,
                        graphics_queue_family: g as u32,
                        present_queue_family: p as u32,
                        device_index: index,
                    },
                ),
            }
        },
    }
}

/// A device is rated suitable exactly when its type is known, it has the
/// required extensions, its surface reports at least one format and one
/// present mode, and it has queue families for graphics and presentation.
/// Its suitability is 0 for a discrete GPU, 1 for an integrated one, 2 for a
/// virtual one, 3 for a CPU and 4 for any other device, and its families are
/// the ones it runs graphics work and presents with.
pub proof fn lemma_rate_device(info: PhysicalDeviceInfo, index: usize)
    ensures
        spec_rate_device(info, index) is Some <==> {
            &&& (info.device_type == PHYSICAL_DEVICE_TYPE_DISCRETE_GPU
                || info.device_type == PHYSICAL_DEVICE_TYPE_INTEGRATED_GPU
                || info.device_type == PHYSICAL_DEVICE_TYPE_VIRTUAL_GPU
                || info.device_type == PHYSICAL_DEVICE_TYPE_CPU
                || info.device_type == PHYSICAL_DEVICE_TYPE_OTHER)
            &&& info.supports_required_extensions
            &&& info.surface_format_count > 0
            &&& info.present_mode_count > 0
            &&& ((exists|i: int| complete_family(info.queue_families@, i)) || ((exists|g: int|
                graphics_family(info.queue_families@, g)) && (exists|p: int|
                present_family(info.queue_families@, p))))
        },
        spec_rate_device(info, index) matches Some(d) ==> {
            &&& d.device_index == index
            &&& info.queue_families@.len() <= u32::MAX ==> graphics_family(
                info.queue_families@,
                d.graphics_queue_family as int,
            ) && present_family(info.queue_families@, d.present_queue_family as int)
            &&& info.device_type == PHYSICAL_DEVICE_TYPE_DISCRETE_GPU ==> d.suitability == 0
            &&& info.device_type == PHYSICAL_DEVICE_TYPE_INTEGRATED_GPU ==> d.suitability == 1
            &&& info.device_type == PHYSICAL_DEVICE_TYPE_VIRTUAL_GPU ==> d.suitability == 2
            &&& info.device_type == PHYSICAL_DEVICE_TYPE_CPU ==> d.suitability == 3
            &&& info.device_type == PHYSICAL_DEVICE_TYPE_OTHER ==> d.suitability == 4
        },
{
    lemma_choose_queue_families(info.queue_families@);
}

/// The device at position `index` as a suitable device, if it is one.
pub fn rate_device(info: &PhysicalDeviceInfo, index: usize) -> (res: Option<SuitableDevice>)
    requires
        info.queue_families@.len() <= u32::MAX,
    ensures
        res == spec_rate_device(*info, index),
{
    let s = match suitability(info.device_type) {
        Some(s) => s,
        None => return None,
    };
    if !info.supports_required_extensions || info.surface_format_count == 0
        || info.present_mode_count == 0 {
        return None;
    }
    match choose_queue_families(info.queue_families.as_slice()) {
        None => None,
        Some((graphics, present)) => Some(
            SuitableDevice {
                suitability: s,
                graphics_queue_family: graphics,
                present_queue_family: present,
                device_index: index,
            },
        ),
    }
}

/// Whether every device's queue family list fits in `u32` positions.
pub open spec fn family_counts_fit(devices: Seq<PhysicalDeviceInfo>) -> bool {
    forall|i: int| 0 <= i < devices.len() ==> #[trigger] devices[i].queue_families@.len() <= u32::MAX
}

/// The suitable device with the lowest suitability, the first of them on a
/// tie; when no device is suitable, the error "no suitable hardware found to
/// initialize vulkan renderer" raised at `file:line`.
pub fn find_suitable_device(devices: &Vec<PhysicalDeviceInfo>, file: String, line: u32) -> (res:
    RisResult<SuitableDevice>)
    requires
        family_counts_fit(devices@),
    ensures
        match res {
            Ok(d) => d.device_index < devices@.len() && spec_rate_device(
                devices@[d.device_index as int],
                d.device_index,
            ) == Some(d) && forall|j: int|
                0 <= j < devices@.len() ==> match #[trigger] spec_rate_device(devices@[j], j as usize) {
                    Some(o) => d.suitability <= o.suitability && (o.suitability
                        == d.suitability ==> d.device_index <= j),
                    None => true,
                },
            Err(e) => (forall|j: int|
                0 <= j < devices@.len() ==> #[trigger] spec_rate_device(devices@[j], j as usize)
                    is None) && e@ == (RisErrorView {
                source: None,
                message: "no suitable hardware found to initialize vulkan renderer"@,
                file: file@,
                line,
            }),
        },
{
    let mut best: Option<SuitableDevice> = None;
    let mut i: usize = 0;
    while i < devices.len()
        invariant
            family_counts_fit(devices@),
            i <= devices@.len(),
            match best {
                Some(d) => d.device_index < i && spec_rate_device(
                    devices@[d.device_index as int],
                    d.device_index,
                ) == Some(d) && forall|j: int|
                    0 <= j < i ==> match #[trigger] spec_rate_device(devices@[j], j as usize) {
                        Some(o) => d.suitability <= o.suitability && (o.suitability
                            == d.suitability ==> d.device_index <= j),
                        None => true,
                    },
                None => forall|j: int|
                    0 <= j < i ==> #[trigger] spec_rate_device(devices@[j], j as usize) is None,
            },
        decreases devices@.len() - i,
    {
        assert(devices@[i as int].queue_families@.len() <= u32::MAX);
        let rated = rate_device(&devices[i], i);
        match rated {
            Some(candidate) => {
                match best {
                    Some(current) => {
                        if candidate.suitability < current.suitability {
                            best = Some(candidate);
                        }
                    },
                    None => {
                        best = Some(candidate);
                    },
                }
            },
            None => {},
        }
        i = i + 1;
    }
    match best {
        Some(d) => Ok(d),
        None => Err(
            new_err(owned("no suitable hardware found to initialize vulkan renderer"), file, line),
        ),
    }
}

/// The queue families the logical device is created with: the graphics one,
/// and the present one when it is another.
pub fn unique_queue_families(graphics_queue_family: u32, present_queue_family: u32) -> (res: Vec<u32>)
    ensures
        graphics_queue_family == present_queue_family ==> res@ == seq![graphics_queue_family],
        graphics_queue_family != present_queue_family ==> res@ == seq![
            graphics_queue_family,
            present_queue_family,
        ],
{
    let mut res: Vec<u32> = Vec::new();
    res.push(graphics_queue_family);
    if present_queue_family != graphics_queue_family {
        res.push(present_queue_family);
    }
    res
}

/// How a device of the given type ranks when the first usable device is
/// picked through vulkano, lower being better.
pub open spec fn spec_device_type_rank(device_type: i32) -> u32 {
    if device_type == PHYSICAL_DEVICE_TYPE_DISCRETE_GPU {
        0
    } else if device_type == PHYSICAL_DEVICE_TYPE_INTEGRATED_GPU {
        1
    } else if device_type == PHYSICAL_DEVICE_TYPE_VIRTUAL_GPU {
        2
    } else if device_type == PHYSICAL_DEVICE_TYPE_CPU {
        3
    } else if device_type == PHYSICAL_DEVICE_TYPE_OTHER {
        4
    } else {
        5
    }
}

/// What is known of a device when it is picked through vulkano.
pub struct DeviceCandidate {
    pub device_type: i32,
    pub supports_extensions: bool,
    /// For each queue family: whether it runs graphics work and can present
    /// to the surface.
    pub queue_families: Vec<(bool, bool)>,
}

/// The first queue family of a device that runs graphics work and can present.
pub open spec fn first_graphics_present(families: Seq<(bool, bool)>) -> Option<int> {
    if exists|i: int| 0 <= i < families.len() && families[i].0 && families[i].1 {
        Some(
            choose|i: int|
                0 <= i < families.len() && families[i].0 && families[i].1 && forall|j: int|
                    0 <= j < i ==> !(families[j].0 && families[j].1),
        )
    } else {
        None
    }
}

/// [`first_graphics_present`] finds a family exactly when one runs graphics
/// work and can present, and then gives the first of them.
pub proof fn lemma_first_graphics_present(families: Seq<(bool, bool)>)
    ensures
        (first_graphics_present(families) is Some) == (exists|i: int|
            0 <= i < families.len() && families[i].0 && families[i].1),
        first_graphics_present(families) matches Some(i) ==> 0 <= i < families.len() && families[i].0
            && families[i].1 && forall|j: int| 0 <= j < i ==> !(families[j].0 && families[j].1),
{
    if exists|i: int| 0 <= i < families.len() && families[i].0 && families[i].1 {
        let k = choose|i: int| 0 <= i < families.len() && families[i].0 && families[i].1;
        let p = |i: int| 0 <= i < families.len() && families[i].0 && families[i].1;
        lemma_least_witness(p, 0, k);
        let w = choose|i: int| 0 <= i <= k && #[trigger] p(i) && forall|j: int| 0 <= j < i ==> !#[trigger] p(j);
        assert(0 <= w < families.len() && families[w].0 && families[w].1 && forall|j: int|
            0 <= j < w ==> !(families[j].0 && families[j].1)) by {
            assert forall|j: int| 0 <= j < w implies !(families[j].0 && families[j].1) by {
                assert(!p(j));
            }
        }
    }
}

/// Whether a device can be used: it has the extensions and a queue family
/// that runs graphics work and can present.
pub open spec fn usable(d: DeviceCandidate) -> bool {
    d.supports_extensions && first_graphics_present(d.queue_families@) is Some
}

fn first_graphics_present_family(families: &Vec<(bool, bool)>) -> (res: Option<usize>)
    ensures
        res is None <==> first_graphics_present(families@) is None,
        res matches Some(i) ==> i < families@.len() && first_graphics_present(families@) == Some(
            i as int,
        ),
{
    let mut i: usize = 0;
    while i < families.len()
        invariant
            i <= families@.len(),
            forall|j: int| 0 <= j < i ==> !(families@[j].0 && families@[j].1),
        decreases families@.len() - i,
    {
        let (graphics, present) = families[i];
        if graphics && present {
            proof {
                let c = choose|c: int|
                    0 <= c < families@.len() && families@[c].0 && families@[c].1 && forall|j: int|
                        0 <= j < c ==> !(families@[j].0 && families@[j].1);
                assert(families@[i as int].0 && families@[i as int].1);
                assert(c == i);
            }
            return Some(i);
        }
        i = i + 1;
    }
    None
}

fn device_type_rank(device_type: i32) -> (res: u32)
    ensures
        res == spec_device_type_rank(device_type),
{
    if device_type == PHYSICAL_DEVICE_TYPE_DISCRETE_GPU {
        0
    } else if device_type == PHYSICAL_DEVICE_TYPE_INTEGRATED_GPU {
        1
    } else if device_type == PHYSICAL_DEVICE_TYPE_VIRTUAL_GPU {
        2
    } else if device_type == PHYSICAL_DEVICE_TYPE_CPU {
        3
    } else if device_type == PHYSICAL_DEVICE_TYPE_OTHER {
        4
    } else {
        5
    }
}

/// What [`select_physical_device`] gives for `devices`: a usable device with
/// its first queue family that runs graphics work and can present, no device
/// of a better type being usable and no earlier device of the same type; or
/// nothing when no device is usable.
pub open spec fn device_selection(devices: Seq<DeviceCandidate>, res: Option<(usize, u32)>) -> bool {
    match res {
        Some((d, q)) => d < devices.len() && usable(devices[d as int])
            && first_graphics_present(devices[d as int].queue_families@) == Some(q as int)
            && forall|j: int|
            0 <= j < devices.len() && usable(#[trigger] devices[j]) ==> spec_device_type_rank(
                devices[d as int].device_type,
            ) < spec_device_type_rank(devices[j].device_type) || (spec_device_type_rank(
                devices[d as int].device_type,
            ) == spec_device_type_rank(devices[j].device_type) && d <= j),
        None => forall|j: int| 0 <= j < devices.len() ==> !usable(#[trigger] devices[j]),
    }
}

/// Picking a device through vulkano prefers a discrete GPU to an integrated
/// one, that to a virtual one, that to a CPU, and that to any other device;
/// among devices of one type the first wins; the queue family is the first
/// that runs graphics work and can present; nothing is picked only when no
/// device is usable.
pub proof fn lemma_selection_prefers_gpus(devices: Seq<DeviceCandidate>, res: Option<(usize, u32)>)
    requires
        device_selection(devices, res),
    ensures
        (res is None) == (forall|j: int| 0 <= j < devices.len() ==> !usable(#[trigger] devices[j])),
        res matches Some((d, q)) ==> {
            let chosen = devices[d as int];
            let families = chosen.queue_families@;
            &&& d < devices.len()
            &&& chosen.supports_extensions
            &&& q < families.len() && families[q as int] == (true, true)
            &&& forall|k: int| 0 <= k < q ==> families[k] != (true, true)
            &&& forall|j: int|
                0 <= j < devices.len() && usable(#[trigger] devices[j]) ==> {
                    let t = devices[j].device_type;
                    let c = chosen.device_type;
                    &&& t == PHYSICAL_DEVICE_TYPE_DISCRETE_GPU ==> c == PHYSICAL_DEVICE_TYPE_DISCRETE_GPU
                    &&& t == PHYSICAL_DEVICE_TYPE_INTEGRATED_GPU ==> c == PHYSICAL_DEVICE_TYPE_DISCRETE_GPU
                        || c == PHYSICAL_DEVICE_TYPE_INTEGRATED_GPU
                    &&& t == PHYSICAL_DEVICE_TYPE_VIRTUAL_GPU ==> c == PHYSICAL_DEVICE_TYPE_DISCRETE_GPU
                        || c == PHYSICAL_DEVICE_TYPE_INTEGRATED_GPU || c == PHYSICAL_DEVICE_TYPE_VIRTUAL_GPU
                    &&& t == PHYSICAL_DEVICE_TYPE_CPU ==> c == PHYSICAL_DEVICE_TYPE_DISCRETE_GPU
                        || c == PHYSICAL_DEVICE_TYPE_INTEGRATED_GPU || c == PHYSICAL_DEVICE_TYPE_VIRTUAL_GPU
                        || c == PHYSICAL_DEVICE_TYPE_CPU
                    &&& t == PHYSICAL_DEVICE_TYPE_OTHER ==> c == PHYSICAL_DEVICE_TYPE_DISCRETE_GPU
                        || c == PHYSICAL_DEVICE_TYPE_INTEGRATED_GPU || c == PHYSICAL_DEVICE_TYPE_VIRTUAL_GPU
                        || c == PHYSICAL_DEVICE_TYPE_CPU || c == PHYSICAL_DEVICE_TYPE_OTHER
                    &&& t == c ==> d <= j
                }
        },
{
    match res {
        Some((d, q)) => {
            lemma_first_graphics_present(devices[d as int].queue_families@);
            let families = devices[d as int].queue_families@;
            assert forall|k: int| 0 <= k < q implies families[k] != (true, true) by {
                if families[k] == (true, true) {
                    assert(families[k].0 && families[k].1);
                }
            }
        },
        None => {},
    }
}

/// The usable device of the best type, the first of them on a tie, with the
/// first of its queue families that runs graphics work and can present;
/// nothing when no device is usable.
pub fn select_physical_device(devices: &Vec<DeviceCandidate>) -> (res: Option<(usize, u32)>)
    requires
        forall|i: int| 0 <= i < devices@.len() ==> #[trigger] devices@[i].queue_families@.len() <= u32::MAX,
    ensures
        device_selection(devices@, res),
{
    let mut best: Option<(usize, u32, u32)> = None;
    let mut i: usize = 0;
    while i < devices.len()
        invariant
            forall|k: int| 0 <= k < devices@.len() ==> #[trigger] devices@[k].queue_families@.len() <= u32::MAX,
            i <= devices@.len(),
            match best {
                Some((d, q, r)) => d < i && usable(devices@[d as int])
                    && first_graphics_present(devices@[d as int].queue_families@) == Some(q as int)
                    && r == spec_device_type_rank(devices@[d as int].device_type) && forall|j: int|
                    0 <= j < i && usable(#[trigger] devices@[j]) ==> r < spec_device_type_rank(
                        devices@[j].device_type,
                    ) || (r == spec_device_type_rank(devices@[j].device_type) && d <= j),
                None => forall|j: int| 0 <= j < i ==> !usable(#[trigger] devices@[j]),
            },
        decreases devices@.len() - i,
    {
        let device = &devices[i];
        if device.supports_extensions {
            match first_graphics_present_family(&device.queue_families) {
                Some(q) => {
                    let rank = device_type_rank(device.device_type);
                    assert(devices@[i as int].queue_families@.len() <= u32::MAX);
                    match best {
                        Some((_, _, r)) => {
                            if rank < r {
                                best = Some((i, q as u32, rank));
                            }
                        },
                        None => {
                            best = Some((i, q as u32, rank));
                        },
                    }
                },
                None => {},
            }
        }
        i = i + 1;
    }
    match best {
        Some((d, q, _)) => Some((d, q)),
        None => None,
    }
}

} // verus!
