//! Device-level selection logic: queue families, memory types and image
//! formats.  The application layer queries the driver for the raw data and
//! hands it in as plain records; the choices made here are exact functions
//! of that data.

use vstd::prelude::*;

use crate::surface::SwapChainSupportDetails;

verus! {

/// What the driver reports about one queue family, reduced to the facts the
/// choice of families depends on.
#[derive(Clone, Copy, Debug, PartialEq, Eq, Structural)]
pub struct QueueFamilyInfo {
    pub queue_count: u32,
    pub supports_graphics: bool,
    pub supports_present: bool,
}

/// The queue family indices chosen for the device, with flags recording
/// whether each was found.  Indices count only families with at least one
/// queue, in the order the driver lists them.
#[derive(Clone, Copy, Debug, PartialEq, Eq, Structural)]
pub struct QueueFamilyIndices {
    pub graphics_family: u32,
    pub present_family: u32,
    pub graphics_family_has_value: bool,
    pub present_family_has_value: bool,
}

impl QueueFamilyIndices {
    /// Both a graphics-capable and a presentation-capable family were found.
    pub open spec fn spec_complete(self) -> bool {
        self.graphics_family_has_value && self.present_family_has_value
    }

    pub fn is_complete(self) -> (r: bool)
        ensures
            r == self.spec_complete(),
    {
        self.graphics_family_has_value && self.present_family_has_value
    }
}

/// The scan state before any family was seen.
pub open spec fn spec_initial_queue_indices() -> QueueFamilyIndices {
    QueueFamilyIndices {
        graphics_family: 0,
        present_family: 0,
        graphics_family_has_value: false,
        present_family_has_value: false,
    }
}

/// One scan step: a usable family at position `index` (counting usable
/// families only) takes over whichever roles it supports.
pub open spec fn spec_note_family(st: QueueFamilyIndices, f: QueueFamilyInfo, index: u32) -> QueueFamilyIndices {
    QueueFamilyIndices {
        graphics_family: if f.supports_graphics { index } else { st.graphics_family },
        present_family: if f.supports_present { index } else { st.present_family },
        graphics_family_has_value: st.graphics_family_has_value || f.supports_graphics,
        present_family_has_value: st.present_family_has_value || f.supports_present,
    }
}

/// The scan over the families from position `i` on: families without queues
/// are skipped without consuming an index, and the scan stops as soon as
/// both roles are filled.
pub open spec fn spec_scan_queue_families(
    families: Seq<QueueFamilyInfo>,
    i: int,
    st: QueueFamilyIndices,
    next_index: u32,
) -> QueueFamilyIndices
    decreases families.len() - i,
{
    if i < 0 || i >= families.len() || st.spec_complete() {
        st
    } else if families[i].queue_count == 0 {
        spec_scan_queue_families(families, i + 1, st, next_index)
    } else {
        spec_scan_queue_families(
            families,
            i + 1,
            spec_note_family(st, families[i], next_index),
            (next_index + 1) as u32,
        )
    }
}

/// The queue family indices the device is created with.
pub open spec fn spec_find_queue_families(families: Seq<QueueFamilyInfo>) -> QueueFamilyIndices {
    spec_scan_queue_families(families, 0, spec_initial_queue_indices(), 0)
}

/// Some family with at least one queue supports graphics.
pub open spec fn spec_has_usable_graphics(families: Seq<QueueFamilyInfo>) -> bool {
    exists|j: int|
        0 <= j < families.len() && (#[trigger] families[j]).queue_count > 0
            && families[j].supports_graphics
}

/// Some family with at least one queue supports presentation.
pub open spec fn spec_has_usable_present(families: Seq<QueueFamilyInfo>) -> bool {
    exists|j: int|
        0 <= j < families.len() && (#[trigger] families[j]).queue_count > 0
            && families[j].supports_present
}

/// The scan finds each role exactly when some usable family supports it.
proof fn lemma_scan_finds_roles(
    families: Seq<QueueFamilyInfo>,
    i: int,
    st: QueueFamilyIndices,
    next_index: u32,
)
    requires
        0 <= i <= families.len(),
    ensures
        spec_scan_queue_families(families, i, st, next_index).graphics_family_has_value
            <==> st.graphics_family_has_value || exists|j: int|
                i <= j < families.len() && (#[trigger] families[j]).queue_count > 0
                    && families[j].supports_graphics,
        spec_scan_queue_families(families, i, st, next_index).present_family_has_value
            <==> st.present_family_has_value || exists|j: int|
                i <= j < families.len() && (#[trigger] families[j]).queue_count > 0
                    && families[j].supports_present,
    decreases families.len() - i,
{
    if i >= families.len() || st.spec_complete() {
    } else if families[i].queue_count == 0 {
        lemma_scan_finds_roles(families, i + 1, st, next_index);
    } else {
        let st2 = spec_note_family(st, families[i], next_index);
        lemma_scan_finds_roles(families, i + 1, st2, (next_index + 1) as u32);
        if families[i].supports_graphics {
            assert(families[i].queue_count > 0 && families[i].supports_graphics);
        }
        if families[i].supports_present {
            assert(families[i].queue_count > 0 && families[i].supports_present);
        }
    }
}

/// The queue families the logical device will be created with, scanned from
/// what the driver reports.  Both roles are found exactly when some usable
/// family supports each.
pub fn find_queue_families(families: &Vec<QueueFamilyInfo>) -> (r: QueueFamilyIndices)
    requires
        families@.len() <= 0xFFFF_FFFF,
    ensures
        r == spec_find_queue_families(families@),
        r.graphics_family_has_value == spec_has_usable_graphics(families@),
        r.present_family_has_value == spec_has_usable_present(families@),
        r.spec_complete() <==> spec_has_usable_graphics(families@) && spec_has_usable_present(
            families@,
        ),
{
    let n: usize = families.len();
    let mut st = QueueFamilyIndices {
        graphics_family: 0,
        present_family: 0,
        graphics_family_has_value: false,
        present_family_has_value: false,
    };
    let mut next_index: u32 = 0;
    let mut i: usize = 0;
    while i < n && !(st.graphics_family_has_value && st.present_family_has_value)
        invariant
            n == families@.len(),
            n <= 0xFFFF_FFFF,
            0 <= i <= n,
            next_index <= i,
            spec_find_queue_families(families@) == spec_scan_queue_families(
                families@,
                i as int,
                st,
                next_index,
            ),
        decreases n - i,
    {
        let f = families[i];
        if f.queue_count > 0 {
            let ghost st_before = st;
            if f.supports_graphics {
                st.graphics_family = next_index;
                st.graphics_family_has_value = true;
            }
            if f.supports_present {
                st.present_family = next_index;
                st.present_family_has_value = true;
            }
            assert(st == spec_note_family(st_before, f, next_index));
            next_index = next_index + 1;
        }
        i = i + 1;
    }
    proof {
        assert(spec_scan_queue_families(families@, i as int, st, next_index) == st);
        lemma_scan_finds_roles(families@, 0, spec_initial_queue_indices(), 0);
    }
    st
}

/// Whether a physical device can run the engine: complete queue families,
/// the required extensions, a surface with at least one format and one
/// present mode, and anisotropic sampling support.  The swapchain support
/// is only queried (and so only passed) when the extensions are present.
pub fn is_device_suitable(
    indices: QueueFamilyIndices,
    extensions_supported: bool,
    swapchain_support: Option<&SwapChainSupportDetails>,
    sampler_anisotropy: u32,
) -> (r: bool)
    ensures
        r == (indices.spec_complete() && extensions_supported && (match swapchain_support {
            Some(s) => s.formats@.len() > 0 && s.present_modes@.len() > 0,
            None => false,
        }) && sampler_anisotropy != 0),
{
    let swap_chain_adequate = match swapchain_support {
        Some(s) => s.formats.len() > 0 && s.present_modes.len() > 0,
        None => false,
    };
    indices.is_complete() && extensions_supported && swap_chain_adequate && sampler_anisotropy
        != 0
}

/// How an image's texels are laid out in memory.
#[derive(Clone, Copy, Debug, PartialEq, Eq, Structural)]
pub enum ImageTiling {
    Optimal,
    Linear,
}

/// The feature flags a device reports for one image format.
#[derive(Clone, Copy, Debug, PartialEq, Eq, Structural)]
pub struct FormatProperties {
    pub linear_tiling_features: u32,
    pub optimal_tiling_features: u32,
}

/// Whether a format with the given properties supports every requested
/// feature under the given tiling.
pub open spec fn spec_format_supports(props: FormatProperties, tiling: ImageTiling, features: u32) -> bool {
    match tiling {
        ImageTiling::Linear => props.linear_tiling_features & features == features,
        ImageTiling::Optimal => props.optimal_tiling_features & features == features,
    }
}

/// The first candidate whose reported properties support the requested
/// features under the requested tiling, or `None` when no candidate does.
pub open spec fn spec_first_supported(
    candidates: Seq<u32>,
    props: Seq<FormatProperties>,
    tiling: ImageTiling,
    features: u32,
) -> Option<u32>
    decreases candidates.len(),
{
    if candidates.len() == 0 {
        None
    } else if spec_format_supports(props[0], tiling, features) {
        Some(candidates[0])
    } else {
        spec_first_supported(candidates.drop_first(), props.drop_first(), tiling, features)
    }
}

/// The first format among `candidates` that the device supports for the
/// given tiling and features; `props[i]` must be the properties the device
/// reports for `candidates[i]`.  The driver-querying caller aborts on
/// `None`, as a missing required format is unrecoverable.
pub fn find_supported_format(
    candidates: &Vec<u32>,
    props: &Vec<FormatProperties>,
    tiling: ImageTiling,
    features: u32,
) -> (r: Option<u32>)
    requires
        props@.len() == candidates@.len(),
    ensures
        r == spec_first_supported(candidates@, props@, tiling, features),
{
    let n: usize = candidates.len();
    let mut i: usize = 0;
    proof {
        assert(candidates@.skip(0) =~= candidates@);
        assert(props@.skip(0) =~= props@);
    }
    while i < n
        invariant
            n == candidates@.len(),
            props@.len() == candidates@.len(),
            0 <= i <= n,
            spec_first_supported(candidates@, props@, tiling, features)
                == spec_first_supported(candidates@.skip(i as int), props@.skip(i as int), tiling, features),
        decreases n - i,
    {
        let p = props[i];
        let supported = match tiling {
            ImageTiling::Linear => p.linear_tiling_features & features == features,
            ImageTiling::Optimal => p.optimal_tiling_features & features == features,
        };
        proof {
            assert(candidates@.skip(i as int)[0] == candidates@[i as int]);
            assert(props@.skip(i as int)[0] == props@[i as int]);
        }
        if supported {
            return Some(candidates[i]);
        }
        proof {
            assert(candidates@.skip(i as int).drop_first() =~= candidates@.skip(i + 1));
            assert(props@.skip(i as int).drop_first() =~= props@.skip(i + 1));
        }
        i = i + 1;
    }
    proof {
        assert(candidates@.skip(i as int).len() == 0);
    }
    None
}

/// Whether memory type `index` with the given flags satisfies a request:
/// the type is admitted by the requirement bitmask and its flags include
/// every requested property.
pub open spec fn spec_memory_type_matches(
    type_filter: u32,
    flags: u32,
    index: u32,
    properties: u32,
) -> bool {
    &&& type_filter & (1u32 << index) != 0u32
    &&& flags & properties == properties
}

/// The lowest-indexed memory type admitted by `type_filter` whose property
/// flags include all of `properties`; `memory_type_flags[i]` must be the
/// flags the device reports for memory type `i`.  The caller aborts on
/// `None`, as a missing memory type is unrecoverable.
pub fn find_memory_type(type_filter: u32, memory_type_flags: &Vec<u32>, properties: u32) -> (r: Option<u32>)
    requires
        memory_type_flags@.len() <= 32,
    ensures
        match r {
            Some(ix) => {
                &&& ix < memory_type_flags@.len()
                &&& spec_memory_type_matches(type_filter, memory_type_flags@[ix as int], ix, properties)
                &&& forall|j: u32|
                    j < ix ==> !spec_memory_type_matches(
                        type_filter,
                        memory_type_flags@[j as int],
                        j,
                        properties,
                    )
            },
            None => forall|j: u32|
                j < memory_type_flags@.len() ==> !spec_memory_type_matches(
                    type_filter,
                    memory_type_flags@[j as int],
                    j,
                    properties,
                ),
        },
{
    let n: usize = memory_type_flags.len();
    let mut i: usize = 0;
    while i < n
        invariant
            n == memory_type_flags@.len(),
            n <= 32,
            0 <= i <= n,
            forall|j: u32|
                j < i ==> !spec_memory_type_matches(
                    type_filter,
                    memory_type_flags@[j as int],
                    j,
                    properties,
                ),
        decreases n - i,
    {
        let index: u32 = i as u32;
        if type_filter & (1u32 << index) != 0u32
            && memory_type_flags[i] & properties == properties {
            return Some(index);
        }
        assert(!spec_memory_type_matches(type_filter, memory_type_flags@[i as int], index, properties));
        i = i + 1;
    }
    None
}

} // verus!
