use vstd::prelude::*;

verus! {

/// Kind of a physical device, as the driver reports it.
#[derive(Clone, Copy, Debug, PartialEq, Eq, Structural)]
pub enum DeviceType {
    DiscreteGpu,
    IntegratedGpu,
    VirtualGpu,
    Cpu,
    Other,
}

/// What device selection needs to know of one physical device.
pub struct DeviceCandidate {
    /// Vulkan API version the device supports, major and minor.
    pub api_major: u32,
    pub api_minor: u32,
    /// The device offers dynamic rendering as an extension.
    pub khr_dynamic_rendering: bool,
    /// The device supports every required extension.
    pub has_required_extensions: bool,
    /// The device supports every required feature.
    pub has_required_features: bool,
    /// For each queue family, whether it supports graphics.
    pub graphics_queue_families: Vec<bool>,
    pub device_type: DeviceType,
}

/// Preference among device kinds: lower is better.
pub open spec fn type_rank(t: DeviceType) -> u8 {
    match t {
        DeviceType::DiscreteGpu => 0,
        DeviceType::IntegratedGpu => 1,
        DeviceType::VirtualGpu => 2,
        DeviceType::Cpu => 3,
        DeviceType::Other => 4,
    }
}

/// Whether the device supports dynamic rendering, being at least Vulkan
/// 1.3 or offering the extension.
pub open spec fn has_dynamic_rendering(c: DeviceCandidate) -> bool {
    c.api_major > 1 || (c.api_major == 1 && c.api_minor >= 3) || c.khr_dynamic_rendering
}

/// Whether a queue family at `q` is the first that supports graphics.
pub open spec fn is_first_graphics(families: Seq<bool>, q: int) -> bool {
    &&& 0 <= q < families.len()
    &&& families[q]
    &&& forall|p: int| 0 <= p < q ==> !#[trigger] families[p]
}

/// Whether the device meets every requirement and has a graphics queue.
pub open spec fn eligible(c: DeviceCandidate) -> bool {
    &&& has_dynamic_rendering(c)
    &&& c.has_required_extensions
    &&& c.has_required_features
    &&& exists|q: int| 0 <= q < c.graphics_queue_families@.len() && c.graphics_queue_families@[q]
}

pub fn device_type_rank(t: DeviceType) -> (r: u8)
    ensures
        r == type_rank(t),
{
    match t {
        DeviceType::DiscreteGpu => 0,
        DeviceType::IntegratedGpu => 1,
        DeviceType::VirtualGpu => 2,
        DeviceType::Cpu => 3,
        DeviceType::Other => 4,
    }
}

/// The index of the first queue family that supports graphics.
fn first_graphics_queue(families: &Vec<bool>) -> (r: Option<usize>)
    ensures
        r matches Some(q) ==> is_first_graphics(families@, q as int),
        r is None ==> forall|p: int| 0 <= p < families@.len() ==> !#[trigger] families@[p],
{
    let mut i: usize = 0;
    while i < families.len()
        invariant
            i <= families@.len(),
            forall|p: int| 0 <= p < i ==> !#[trigger] families@[p],
        decreases families@.len() - i,
    {
        if families[i] {
            return Some(i);
        }
        i = i + 1;
    }
    None
}

fn is_eligible(c: &DeviceCandidate) -> (r: Option<usize>)
    ensures
        r is Some <==> eligible(*c),
        r matches Some(q) ==> is_first_graphics(c.graphics_queue_families@, q as int),
{
    let dynamic = c.api_major > 1 || (c.api_major == 1 && c.api_minor >= 3) || c.khr_dynamic_rendering;
    if !(dynamic && c.has_required_extensions && c.has_required_features) {
        return None;
    }
    first_graphics_queue(&c.graphics_queue_families)
}

/// Picks the device to render on: among the devices that meet every
/// requirement and have a graphics queue, the one of the most preferred
/// kind, the first such in the list. Returns its position in the list and
/// the index of its first graphics queue family.
pub fn select_processing_device(candidates: &Vec<DeviceCandidate>) -> (r: Option<(usize, u32)>)
    ensures
        r is None <==> forall|i: int| 0 <= i < candidates@.len() ==> !eligible(#[trigger] candidates@[i]),
        r matches Some((i, q)) ==> {
            &&& 0 <= i < candidates@.len()
            &&& eligible(candidates@[i as int])
            &&& exists|f: int|
                is_first_graphics(candidates@[i as int].graphics_queue_families@, f) && q == f as u32
            &&& forall|j: int|
                0 <= j < i && eligible(#[trigger] candidates@[j]) ==> type_rank(
                    candidates@[j].device_type,
                ) > type_rank(candidates@[i as int].device_type)
            &&& forall|j: int|
                i < j < candidates@.len() && eligible(#[trigger] candidates@[j]) ==> type_rank(
                    candidates@[j].device_type,
                ) >= type_rank(candidates@[i as int].device_type)
        },
{
    let mut best: Option<(usize, u32)> = None;
    let mut best_rank: u8 = 0;
    let mut i: usize = 0;
    while i < candidates.len()
        invariant
            i <= candidates@.len(),
            best is None ==> forall|j: int| 0 <= j < i ==> !eligible(#[trigger] candidates@[j]),
            best matches Some((b, q)) ==> {
                &&& 0 <= b < i
                &&& eligible(candidates@[b as int])
                &&& best_rank == type_rank(candidates@[b as int].device_type)
                &&& exists|f: int|
                    is_first_graphics(candidates@[b as int].graphics_queue_families@, f) && q == f as u32
                &&& forall|j: int|
                    0 <= j < b && eligible(#[trigger] candidates@[j]) ==> type_rank(
                        candidates@[j].device_type,
                    ) > best_rank
                &&& forall|j: int|
                    b < j < i && eligible(#[trigger] candidates@[j]) ==> type_rank(
                        candidates@[j].device_type,
                    ) >= best_rank
            },
        decreases candidates@.len() - i,
    {
        let c = &candidates[i];
        match is_eligible(c) {
            Some(q) => {
                let rank = device_type_rank(c.device_type);
                let better = match best {
                    None => true,
                    Some(_) => rank < best_rank,
                };
                if better {
                    best = Some((i, q as u32));
                    best_rank = rank;
                }
            },
            None => {},
        }
        i = i + 1;
    }
    best
}

} // verus!
