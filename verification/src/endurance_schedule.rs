//! The fixed sixty-minute schedule of the supervised endurance run.

use vstd::prelude::*;
use crate::evidence::EvidenceProfile;

verus! {

pub const SUPERVISED_ENDURANCE_DURATION_MILLIS: u64 = 3_600_000;

pub const SUPERVISED_ENDURANCE_SAMPLE_COUNT: usize = 1_800;

#[derive(Debug, Clone, Copy, PartialEq, Eq, Structural)]
pub enum SupervisedEnduranceLoad {
    Load,
    Idle,
}

/// One stretch of the run on one power profile under one load.
#[derive(Debug, Clone, Copy, PartialEq, Eq)]
pub struct SupervisedEnduranceSegment {
    pub id: &'static str,
    pub power_profile: EvidenceProfile,
    pub load: SupervisedEnduranceLoad,
    pub duration_millis: u64,
}

/// The segment at a place in the schedule.
pub open spec fn segment(index: int) -> SupervisedEnduranceSegment {
    if index == 0 {
        SupervisedEnduranceSegment {
            id: "endurance-ac-load-1",
            power_profile: EvidenceProfile::Ac,
            load: SupervisedEnduranceLoad::Load,
            duration_millis: 900_000,
        }
    } else if index == 1 {
        SupervisedEnduranceSegment {
            id: "endurance-ac-idle-1",
            power_profile: EvidenceProfile::Ac,
            load: SupervisedEnduranceLoad::Idle,
            duration_millis: 600_000,
        }
    } else if index == 2 {
        SupervisedEnduranceSegment {
            id: "endurance-battery-load",
            power_profile: EvidenceProfile::Battery,
            load: SupervisedEnduranceLoad::Load,
            duration_millis: 600_000,
        }
    } else if index == 3 {
        SupervisedEnduranceSegment {
            id: "endurance-battery-idle",
            power_profile: EvidenceProfile::Battery,
            load: SupervisedEnduranceLoad::Idle,
            duration_millis: 300_000,
        }
    } else if index == 4 {
        SupervisedEnduranceSegment {
            id: "endurance-ac-load-2",
            power_profile: EvidenceProfile::Ac,
            load: SupervisedEnduranceLoad::Load,
            duration_millis: 600_000,
        }
    } else {
        SupervisedEnduranceSegment {
            id: "endurance-ac-idle-2",
            power_profile: EvidenceProfile::Ac,
            load: SupervisedEnduranceLoad::Idle,
            duration_millis: 600_000,
        }
    }
}

/// The number of segments.
pub const SEGMENT_COUNT: usize = 6;

/// The segment at a place in the schedule.
pub fn segment_at_index(index: usize) -> (found: SupervisedEnduranceSegment)
    requires
        index < 6,
    ensures
        found == segment(index as int),
{
    if index == 0 {
        SupervisedEnduranceSegment {
            id: "endurance-ac-load-1",
            power_profile: EvidenceProfile::Ac,
            load: SupervisedEnduranceLoad::Load,
            duration_millis: 900_000,
        }
    } else if index == 1 {
        SupervisedEnduranceSegment {
            id: "endurance-ac-idle-1",
            power_profile: EvidenceProfile::Ac,
            load: SupervisedEnduranceLoad::Idle,
            duration_millis: 600_000,
        }
    } else if index == 2 {
        SupervisedEnduranceSegment {
            id: "endurance-battery-load",
            power_profile: EvidenceProfile::Battery,
            load: SupervisedEnduranceLoad::Load,
            duration_millis: 600_000,
        }
    } else if index == 3 {
        SupervisedEnduranceSegment {
            id: "endurance-battery-idle",
            power_profile: EvidenceProfile::Battery,
            load: SupervisedEnduranceLoad::Idle,
            duration_millis: 300_000,
        }
    } else if index == 4 {
        SupervisedEnduranceSegment {
            id: "endurance-ac-load-2",
            power_profile: EvidenceProfile::Ac,
            load: SupervisedEnduranceLoad::Load,
            duration_millis: 600_000,
        }
    } else {
        SupervisedEnduranceSegment {
            id: "endurance-ac-idle-2",
            power_profile: EvidenceProfile::Ac,
            load: SupervisedEnduranceLoad::Idle,
            duration_millis: 600_000,
        }
    }
}

/// The whole schedule, in order.
pub fn supervised_endurance_segments() -> (segments: Vec<SupervisedEnduranceSegment>)
    ensures
        segments@.len() == 6,
        forall|i: int| 0 <= i < 6 ==> segments@[i] == segment(i),
{
    let mut segments: Vec<SupervisedEnduranceSegment> = Vec::new();
    let mut i: usize = 0;
    while i < 6
        invariant
            i <= 6,
            segments@.len() == i,
            forall|k: int| 0 <= k < i ==> segments@[k] == segment(k),
        decreases 6 - i,
    {
        segments.push(segment_at_index(i));
        i = i + 1;
    }
    segments
}

/// How far into the run a segment begins.
pub open spec fn segment_start(index: int) -> int
    decreases index,
{
    if index <= 0 {
        0
    } else {
        segment_start(index - 1) + segment(index - 1).duration_millis
    }
}

/// The first segment that has not ended before an elapsed time, or the last one.
pub open spec fn segment_of(elapsed_millis: int, from: int) -> int
    decreases 6 - from,
{
    if from >= 5 || elapsed_millis <= segment_start(from + 1) {
        from
    } else {
        segment_of(elapsed_millis, from + 1)
    }
}

/// The schedule's boundaries, and that they end after exactly sixty minutes.
pub proof fn schedule_is_sixty_minutes()
    ensures
        segment_start(0) == 0,
        segment_start(1) == 900_000,
        segment_start(2) == 1_500_000,
        segment_start(3) == 2_100_000,
        segment_start(4) == 2_400_000,
        segment_start(5) == 3_000_000,
        segment_start(6) == SUPERVISED_ENDURANCE_DURATION_MILLIS,
{
    assert(segment_start(1) == segment_start(0) + segment(0).duration_millis);
    assert(segment_start(2) == segment_start(1) + segment(1).duration_millis);
    assert(segment_start(3) == segment_start(2) + segment(2).duration_millis);
    assert(segment_start(4) == segment_start(3) + segment(3).duration_millis);
    assert(segment_start(5) == segment_start(4) + segment(4).duration_millis);
    assert(segment_start(6) == segment_start(5) + segment(5).duration_millis);
}

/// Every moment of the run after its start belongs to the one segment that it lies in, a boundary
/// to the segment that ends there.
pub proof fn segment_contains_its_moments(elapsed_millis: int, index: int)
    requires
        0 < elapsed_millis <= SUPERVISED_ENDURANCE_DURATION_MILLIS,
        0 <= index < 6,
    ensures
        segment_of(elapsed_millis, 0) == index <==> segment_start(index) < elapsed_millis
            <= segment_start(index + 1),
{
    schedule_is_sixty_minutes();
    reveal_with_fuel(segment_of, 7);
}

/// A sample is taken every two seconds for the whole run.
pub proof fn samples_cover_the_schedule()
    ensures
        SUPERVISED_ENDURANCE_SAMPLE_COUNT * 2_000 == SUPERVISED_ENDURANCE_DURATION_MILLIS,
{
}

/// Finds the segment that an elapsed time belongs to.
pub fn segment_index_at_elapsed(elapsed_millis: u64) -> (index: usize)
    ensures
        index == segment_of(elapsed_millis as int, 0),
        index < 6,
{
    proof {
        schedule_is_sixty_minutes();
        reveal_with_fuel(segment_of, 7);
    }
    if elapsed_millis <= 900_000 {
        0
    } else if elapsed_millis <= 1_500_000 {
        1
    } else if elapsed_millis <= 2_100_000 {
        2
    } else if elapsed_millis <= 2_400_000 {
        3
    } else if elapsed_millis <= 3_000_000 {
        4
    } else {
        5
    }
}

/// How far into the run a segment begins, for the segments that exist and the end of the last.
pub fn segment_boundary_elapsed(segment_index: usize) -> (elapsed: Option<u64>)
    ensures
        match elapsed {
            Some(elapsed) => segment_index <= 6 && elapsed == segment_start(segment_index as int),
            None => segment_index > 6,
        },
{
    proof {
        schedule_is_sixty_minutes();
    }
    if segment_index == 0 {
        Some(0)
    } else if segment_index == 1 {
        Some(900_000)
    } else if segment_index == 2 {
        Some(1_500_000)
    } else if segment_index == 3 {
        Some(2_100_000)
    } else if segment_index == 4 {
        Some(2_400_000)
    } else if segment_index == 5 {
        Some(3_000_000)
    } else if segment_index == 6 {
        Some(3_600_000)
    } else {
        None
    }
}

} // verus!
