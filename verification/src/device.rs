//! Rendering adapter selection: which physical device to use and which of
//! its queue families to run on.
//!
//! An adapter is compatible when one of its queue families supports
//! graphics, compute and transfer work; compatible adapters are ranked by
//! device class — discrete first, then integrated, virtual, software, and
//! unknown last — and the first best-ranked one wins.

use vstd::prelude::*;

verus! {

/// The class of a rendering adapter, as the platform reports it.
#[derive(Copy, Clone, PartialEq, Eq, Structural, Debug)]
pub enum DeviceClass {
    DiscreteGpu,
    IntegratedGpu,
    VirtualGpu,
    Cpu,
    Other,
    Unknown,
}

/// What a queue family supports, read off the platform's capability flags.
#[derive(Copy, Clone, PartialEq, Eq, Structural, Debug)]
pub struct QueueFamily {
    pub graphics: bool,
    pub compute: bool,
    pub transfer: bool,
}

/// Whether a queue family can carry every kind of work the sandbox submits.
pub open spec fn spec_family_capable(f: QueueFamily) -> bool {
    f.graphics && f.compute && f.transfer
}

/// The preference rank of a device class: lower is better. Discrete
/// hardware usually is the most powerful; any hardware acceleration beats
/// none; an unreported class is the last resort.
pub open spec fn spec_device_rank(class: DeviceClass) -> int {
    match class {
        DeviceClass::DiscreteGpu => 0,
        DeviceClass::IntegratedGpu => 1,
        DeviceClass::VirtualGpu => 2,
        DeviceClass::Cpu => 3,
        DeviceClass::Other => 4,
        DeviceClass::Unknown => usize::MAX as int,
    }
}

/// Ranks an adapter by its device class; lower is better.
pub fn rank_physical_device(class: DeviceClass) -> (r: usize)
    ensures
        r == spec_device_rank(class),
{
    match class {
        DeviceClass::DiscreteGpu => 0,
        DeviceClass::IntegratedGpu => 1,
        DeviceClass::VirtualGpu => 2,
        DeviceClass::Cpu => 3,
        DeviceClass::Other => 4,
        DeviceClass::Unknown => usize::MAX,
    }
}

/// Finds the queue family the sandbox can use: the first one supporting
/// graphics, compute and transfer. Fails exactly when no family does.
pub fn filter_physical_device(families: &Vec<QueueFamily>) -> (r: Option<usize>)
    ensures
        r is Some <==> exists|j: int|
            0 <= j < families@.len() && spec_family_capable(#[trigger] families@[j]),
        r matches Some(i) ==> {
            &&& 0 <= i < families@.len()
            &&& spec_family_capable(families@[i as int])
            &&& forall|j: int| 0 <= j < i ==> !spec_family_capable(#[trigger] families@[j])
        },
{
    let mut idx: usize = 0;

    while idx < families.len()
        invariant
            0 <= idx <= families@.len(),
            forall|j: int| 0 <= j < idx ==> !spec_family_capable(#[trigger] families@[j]),
        decreases families@.len() - idx,
    {
        let f = families[idx];
        if f.graphics && f.compute && f.transfer {
            return Some(idx);
        }
        idx = idx + 1;
    }

    None
}

/// The index of the first adapter with the best (lowest) device-class rank.
pub open spec fn first_best_adapter(s: Seq<DeviceClass>) -> int
    decreases s.len(),
{
    if s.len() <= 1 {
        0
    } else {
        let k = first_best_adapter(s.drop_last());
        if spec_device_rank(s.last()) < spec_device_rank(s[k]) {
            s.len() - 1
        } else {
            k
        }
    }
}

/// The index of the first best-ranked adapter lies in range, no adapter
/// ranks below it, and every earlier adapter ranks strictly worse.
pub proof fn lemma_first_best_adapter(s: Seq<DeviceClass>)
    requires
        s.len() > 0,
    ensures
        0 <= first_best_adapter(s) < s.len(),
        forall|j: int|
            0 <= j < s.len() ==> spec_device_rank(s[first_best_adapter(s)]) <= spec_device_rank(
                #[trigger] s[j],
            ),
        forall|j: int|
            0 <= j < first_best_adapter(s) ==> spec_device_rank(#[trigger] s[j])
                > spec_device_rank(s[first_best_adapter(s)]),
    decreases s.len(),
{
    if s.len() > 1 {
        let t = s.drop_last();
        let k = first_best_adapter(t);
        lemma_first_best_adapter(t);
        assert(forall|j: int| 0 <= j < t.len() ==> t[j] == #[trigger] s[j]);
        assert(s.last() == s[s.len() - 1]);
        if spec_device_rank(s.last()) < spec_device_rank(s[k]) {
            assert(first_best_adapter(s) == s.len() - 1);
            assert forall|j: int| 0 <= j < s.len() - 1 implies spec_device_rank(#[trigger] s[j])
                > spec_device_rank(s[s.len() - 1]) by {
                assert(spec_device_rank(t[k]) <= spec_device_rank(t[j]));
            }
        } else {
            assert(first_best_adapter(s) == k);
        }
    }
}

/// Picks the adapter to use from the compatible candidates: the first one
/// with the best device-class rank. Fails exactly when there is no
/// candidate at all — a fatal startup condition for the caller.
pub fn pick_physical_device(classes: &Vec<DeviceClass>) -> (r: Option<usize>)
    ensures
        r is Some <==> classes@.len() > 0,
        r matches Some(i) ==> i == first_best_adapter(classes@),
{
    if classes.len() == 0 {
        return None;
    }

    let mut best_idx: usize = 0;
    let mut best_rank: usize = rank_physical_device(classes[0]);
    let mut idx: usize = 1;

    while idx < classes.len()
        invariant
            1 <= idx <= classes@.len(),
            0 <= best_idx < idx,
            best_idx == first_best_adapter(classes@.take(idx as int)),
            best_rank == spec_device_rank(classes@[best_idx as int]),
        decreases classes@.len() - idx,
    {
        let rank = rank_physical_device(classes[idx]);

        proof {
            assert(classes@.take(idx + 1).drop_last() =~= classes@.take(idx as int));
            assert(classes@.take(idx + 1).last() == classes@[idx as int]);
        }

        if rank < best_rank {
            best_idx = idx;
            best_rank = rank;
        }

        idx = idx + 1;
    }

    proof {
        assert(classes@.take(classes@.len() as int) =~= classes@);
    }

    Some(best_idx)
}

} // verus!
