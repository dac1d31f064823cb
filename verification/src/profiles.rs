use vstd::prelude::*;

verus! {

/// The name of a phase of a reflow soldering profile.
#[derive(Clone, Copy, PartialEq, Eq, Structural, Debug)]
pub enum ReflowPhaseName {
    Preheat,
    Soak,
    Reflow,
}

/// One phase of a reflow profile: over `duration_secs` the plate is driven
/// linearly from the temperature at which the phase starts to `end_temp`.
#[derive(Clone, Copy, PartialEq, Eq, Structural, Debug)]
pub struct ReflowPhase {
    pub name: ReflowPhaseName,
    pub duration_secs: u16,
    pub end_temp: u16,
}

/// A reflow profile for one solder alloy: its phases in the order they run.
pub struct AlloyReflowProfile {
    pub alloy: &'static str,
    pub phases: Vec<ReflowPhase>,
}

/// Where a running profile stands after some number of seconds.
///
/// The temperature the plate should have is the linear interpolation
/// `start + (end_temp - start) * elapsed_in_phase / phase_duration_secs`,
/// where `start` is `start_temp`, or the temperature measured when the profile
/// began where `start_temp` is `None` (the first phase).
#[derive(Clone, Copy, PartialEq, Eq, Structural, Debug)]
pub struct ReflowStatus {
    pub phase_name: ReflowPhaseName,
    pub phase_index: usize,
    pub start_temp: Option<u16>,
    pub end_temp: u16,
    pub elapsed_in_phase: u16,
    pub phase_duration_secs: u16,
    pub time_left_in_phase: u16,
    pub total_time_left: u16,
}

/// Sum of the durations of the first `n` phases: the second at which phase `n` starts.
pub open spec fn duration_prefix(phases: Seq<ReflowPhase>, n: int) -> int
    decreases n,
{
    if n <= 0 {
        0
    } else {
        duration_prefix(phases, n - 1) + phases[n - 1].duration_secs
    }
}

/// Sum of the durations of all phases.
pub open spec fn total_duration_of(phases: Seq<ReflowPhase>) -> int {
    duration_prefix(phases, phases.len() as int)
}

/// The first phase, counting from `i`, that has not ended `elapsed` seconds after the
/// start (a phase that ends at second `t` still runs at second `t`); `phases.len()` if none.
pub open spec fn first_phase_from(phases: Seq<ReflowPhase>, elapsed: int, i: int) -> int
    decreases phases.len() - i,
{
    if i >= phases.len() {
        phases.len() as int
    } else if elapsed <= duration_prefix(phases, i + 1) {
        i
    } else {
        first_phase_from(phases, elapsed, i + 1)
    }
}

/// The phase that runs `elapsed` seconds after the start; `phases.len()` once all have ended.
pub open spec fn phase_at(phases: Seq<ReflowPhase>, elapsed: int) -> int {
    first_phase_from(phases, elapsed, 0)
}

/// The status that a profile with these phases reports `elapsed` seconds after its start.
pub open spec fn status_at(phases: Seq<ReflowPhase>, elapsed: int) -> Option<ReflowStatus> {
    let i = phase_at(phases, elapsed);
    if i < phases.len() {
        let offset = elapsed - duration_prefix(phases, i);
        Some(ReflowStatus {
            phase_name: phases[i].name,
            phase_index: i as usize,
            start_temp: if i == 0 { None } else { Some(phases[i - 1].end_temp) },
            end_temp: phases[i].end_temp,
            elapsed_in_phase: offset as u16,
            phase_duration_secs: phases[i].duration_secs,
            time_left_in_phase: (phases[i].duration_secs - offset) as u16,
            total_time_left: (total_duration_of(phases) - elapsed) as u16,
        })
    } else {
        None
    }
}

/// Phases start no earlier than the phases before them.
pub proof fn lemma_duration_prefix_monotone(phases: Seq<ReflowPhase>, a: int, b: int)
    requires
        a <= b,
    ensures
        duration_prefix(phases, a) <= duration_prefix(phases, b),
    decreases b - a,
{
    if a < b {
        lemma_duration_prefix_monotone(phases, a, b - 1);
    }
}

proof fn lemma_first_phase_from_bounds(phases: Seq<ReflowPhase>, elapsed: int, i: int)
    requires
        0 <= i <= phases.len(),
    ensures
        i <= first_phase_from(phases, elapsed, i) <= phases.len(),
        forall|j: int|
            i <= j < first_phase_from(phases, elapsed, i) ==> elapsed > #[trigger] duration_prefix(
                phases,
                j + 1,
            ),
        first_phase_from(phases, elapsed, i) < phases.len() ==> elapsed <= duration_prefix(
            phases,
            first_phase_from(phases, elapsed, i) + 1,
        ),
    decreases phases.len() - i,
{
    if i < phases.len() && elapsed > duration_prefix(phases, i + 1) {
        lemma_first_phase_from_bounds(phases, elapsed, i + 1);
    }
}

/// `phase_at` is the first phase that has not ended.
pub proof fn lemma_phase_at(phases: Seq<ReflowPhase>, elapsed: int)
    ensures
        0 <= phase_at(phases, elapsed) <= phases.len(),
        forall|j: int|
            0 <= j < phase_at(phases, elapsed) ==> elapsed > #[trigger] duration_prefix(
                phases,
                j + 1,
            ),
        phase_at(phases, elapsed) < phases.len() ==> elapsed <= duration_prefix(
            phases,
            phase_at(phases, elapsed) + 1,
        ),
{
    lemma_first_phase_from_bounds(phases, elapsed, 0);
}

/// A phase index `i` meets the defining property of `phase_at` only if it is `phase_at`.
proof fn lemma_phase_at_unique(phases: Seq<ReflowPhase>, elapsed: int, i: int)
    requires
        0 <= i <= phases.len(),
        forall|j: int| 0 <= j < i ==> elapsed > #[trigger] duration_prefix(phases, j + 1),
        i < phases.len() ==> elapsed <= duration_prefix(phases, i + 1),
    ensures
        phase_at(phases, elapsed) == i,
{
    lemma_phase_at(phases, elapsed);
    let p = phase_at(phases, elapsed);
    if p < i {
        assert(elapsed > duration_prefix(phases, p + 1));
    } else if p > i {
        assert(elapsed > duration_prefix(phases, i + 1));
    }
}

impl AlloyReflowProfile {
    /// The total length of the profile in seconds.
    pub fn total_duration(&self) -> (total: u16)
        requires
            total_duration_of(self.phases@) <= u16::MAX,
        ensures
            total == total_duration_of(self.phases@),
    {
        let mut sum: u16 = 0;
        let mut i: usize = 0;
        while i < self.phases.len()
            invariant
                i <= self.phases.len(),
                sum == duration_prefix(self.phases@, i as int),
                total_duration_of(self.phases@) <= u16::MAX,
            decreases self.phases.len() - i,
        {
            proof {
                lemma_duration_prefix_monotone(
                    self.phases@,
                    i + 1,
                    self.phases@.len() as int,
                );
            }
            sum = sum + self.phases[i].duration_secs;
            i = i + 1;
        }
        sum
    }

    /// The temperature at which phase `phase_index` starts: the end temperature of the
    /// phase before it, or `None` for the first phase, which starts from the temperature
    /// measured when the profile begins.
    pub fn phase_start_temp(&self, phase_index: usize) -> (t: Option<u16>)
        requires
            phase_index <= self.phases@.len(),
        ensures
            t == (if phase_index == 0 {
                None
            } else {
                Some(self.phases@[phase_index - 1].end_temp)
            }),
    {
        if phase_index == 0 {
            None
        } else {
            Some(self.phases[phase_index - 1].end_temp)
        }
    }

    /// Where the profile stands `elapsed_secs` seconds after it started, or `None` once
    /// every phase has ended.
    pub fn get_status(&self, elapsed_secs: u16) -> (status: Option<ReflowStatus>)
        requires
            total_duration_of(self.phases@) <= u16::MAX,
        ensures
            status == status_at(self.phases@, elapsed_secs as int),
            status is Some <==> (self.phases@.len() > 0 && elapsed_secs <= total_duration_of(
                self.phases@,
            )),
    {
        let ghost phases = self.phases@;
        let total_time = self.total_duration();
        let mut t_start: u16 = 0;
        let mut i: usize = 0;
        while i < self.phases.len()
            invariant
                phases == self.phases@,
                i <= phases.len(),
                t_start == duration_prefix(phases, i as int),
                total_time == total_duration_of(phases),
                total_duration_of(phases) <= u16::MAX,
                forall|j: int| 0 <= j < i ==> elapsed_secs > #[trigger] duration_prefix(phases, j + 1),
            decreases phases.len() - i,
        {
            proof {
                lemma_duration_prefix_monotone(phases, i + 1, phases.len() as int);
            }
            let phase = self.phases[i];
            let t_end = t_start + phase.duration_secs;
            if elapsed_secs <= t_end {
                proof {
                    if i > 0 {
                        assert(elapsed_secs > duration_prefix(phases, (i - 1) + 1));
                    }
                }
                let offset = elapsed_secs - t_start;
                proof {
                    lemma_phase_at_unique(phases, elapsed_secs as int, i as int);
                    lemma_duration_prefix_monotone(phases, i + 1, phases.len() as int);
                }
                let start_temp = self.phase_start_temp(i);
                let total_time_left = if total_time >= elapsed_secs {
                    total_time - elapsed_secs
                } else {
                    0
                };
                return Some(
                    ReflowStatus {
                        phase_name: phase.name,
                        phase_index: i,
                        start_temp,
                        end_temp: phase.end_temp,
                        elapsed_in_phase: offset,
                        phase_duration_secs: phase.duration_secs,
                        time_left_in_phase: phase.duration_secs - offset,
                        total_time_left,
                    },
                );
            }
            t_start = t_start + phase.duration_secs;
            i = i + 1;
        }
        proof {
            lemma_phase_at_unique(phases, elapsed_secs as int, phases.len() as int);
            if phases.len() > 0 {
                assert(elapsed_secs > duration_prefix(phases, phases.len() - 1 + 1));
            }
        }
        None
    }
}

/// Later in a run the profile is never in an earlier phase.
pub proof fn law_phase_never_goes_back(phases: Seq<ReflowPhase>, e1: int, e2: int)
    requires
        e1 <= e2,
    ensures
        phase_at(phases, e1) <= phase_at(phases, e2),
{
    lemma_phase_at(phases, e1);
    lemma_phase_at(phases, e2);
    let p1 = phase_at(phases, e1);
    let p2 = phase_at(phases, e2);
    if p2 < p1 {
        assert(e1 > duration_prefix(phases, p2 + 1));
    }
}

/// In every reported status, the time spent in the phase and the time left in it add
/// up to the phase's duration, and no more time is left in the phase than in the profile.
pub proof fn law_status_times_add_up(phases: Seq<ReflowPhase>, elapsed: int)
    requires
        0 <= elapsed,
        total_duration_of(phases) <= u16::MAX,
        status_at(phases, elapsed) is Some,
    ensures
        ({
            let s = status_at(phases, elapsed)->0;
            &&& s.elapsed_in_phase + s.time_left_in_phase == s.phase_duration_secs
            &&& s.time_left_in_phase <= s.total_time_left
            &&& s.total_time_left == total_duration_of(phases) - elapsed
        }),
{
    lemma_phase_at(phases, elapsed);
    let i = phase_at(phases, elapsed);
    if i > 0 {
        assert(elapsed > duration_prefix(phases, (i - 1) + 1));
    }
    lemma_duration_prefix_monotone(phases, i + 1, phases.len() as int);
}

/// The remaining time of a run goes down by one with every second.
pub proof fn law_total_time_left_counts_down(phases: Seq<ReflowPhase>, elapsed: int)
    requires
        0 <= elapsed,
        elapsed + 1 <= total_duration_of(phases),
        total_duration_of(phases) <= u16::MAX,
    ensures
        status_at(phases, elapsed) is Some,
        status_at(phases, elapsed + 1) is Some,
        status_at(phases, elapsed + 1)->0.total_time_left + 1 == status_at(
            phases,
            elapsed,
        )->0.total_time_left,
{
    lemma_status_defined(phases, elapsed);
    lemma_status_defined(phases, elapsed + 1);
}

/// A status is reported exactly while the run has not passed the end of its last phase.
pub proof fn lemma_status_defined(phases: Seq<ReflowPhase>, elapsed: int)
    ensures
        status_at(phases, elapsed) is Some <==> (phases.len() > 0 && elapsed <= total_duration_of(
            phases,
        )),
{
    lemma_phase_at(phases, elapsed);
    let i = phase_at(phases, elapsed);
    if i < phases.len() {
        lemma_duration_prefix_monotone(phases, i + 1, phases.len() as int);
    } else if phases.len() > 0 {
        assert(elapsed > duration_prefix(phases, (phases.len() - 1) + 1));
    }
}

/// A run starts in the first phase, from the temperature measured at its start.
pub proof fn law_run_starts_in_first_phase(phases: Seq<ReflowPhase>)
    requires
        phases.len() > 0,
    ensures
        status_at(phases, 0) matches Some(s) && s.phase_index == 0 && s.start_temp is None
            && s.elapsed_in_phase == 0,
{
    assert(duration_prefix(phases, 1int) == duration_prefix(phases, 0int) + phases[0].duration_secs);
    lemma_phase_at_unique(phases, 0, 0);
}

/// The target temperature is continuous across a phase boundary: at the last second of a
/// phase (of positive duration) the whole phase has elapsed, so the target is its end
/// temperature, and the following phase starts from that same temperature.
pub proof fn law_phase_boundary_is_continuous(phases: Seq<ReflowPhase>, i: int)
    requires
        0 <= i < phases.len(),
        phases.len() <= usize::MAX,
        phases[i].duration_secs > 0,
        total_duration_of(phases) <= u16::MAX,
    ensures
        status_at(phases, duration_prefix(phases, i + 1)) matches Some(s) && s.phase_index == i
            && s.elapsed_in_phase == s.phase_duration_secs && s.end_temp == phases[i].end_temp,
        (i + 1 < phases.len() && phases[i + 1].duration_secs > 0) ==> (status_at(
            phases,
            duration_prefix(phases, i + 1) + 1,
        ) matches Some(t) && t.phase_index == i + 1 && t.start_temp == Some(phases[i].end_temp)),
{
    let e = duration_prefix(phases, i + 1);
    assert(e == duration_prefix(phases, i) + phases[i].duration_secs);
    lemma_duration_prefix_monotone(phases, i + 1, phases.len() as int);
    assert forall|j: int| 0 <= j < i implies e > #[trigger] duration_prefix(phases, j + 1) by {
        lemma_duration_prefix_monotone(phases, j + 1, i);
    }
    lemma_phase_at_unique(phases, e, i);
    assert(phase_at(phases, e) == i);
    if i + 1 < phases.len() && phases[i + 1].duration_secs > 0 {
        let e2 = e + 1;
        assert(duration_prefix(phases, (i + 1) + 1) == e + phases[i + 1].duration_secs);
        lemma_phase_at(phases, e2);
        law_phase_never_goes_back(phases, e, e2);
        let p = phase_at(phases, e2);
        if p == i {
            assert(e2 <= duration_prefix(phases, i + 1));
        }
        if p > i + 1 {
            assert(e2 > duration_prefix(phases, (i + 1) + 1));
        }
        lemma_duration_prefix_monotone(phases, i + 2, phases.len() as int);
        lemma_status_defined(phases, e2);
    }
}

/// The phases of the profile for the Sn42Bi58 alloy.
pub open spec fn sn42bi58_phases() -> Seq<ReflowPhase> {
    seq![
        ReflowPhase { name: ReflowPhaseName::Preheat, duration_secs: 90, end_temp: 120 },
        ReflowPhase { name: ReflowPhaseName::Soak, duration_secs: 60, end_temp: 138 },
        ReflowPhase { name: ReflowPhaseName::Reflow, duration_secs: 30, end_temp: 165 },
    ]
}

/// The phases of the profile for the Sn64Bi35Ag1 alloy.
pub open spec fn sn64bi35ag1_phases() -> Seq<ReflowPhase> {
    seq![
        ReflowPhase { name: ReflowPhaseName::Preheat, duration_secs: 90, end_temp: 130 },
        ReflowPhase { name: ReflowPhaseName::Soak, duration_secs: 60, end_temp: 150 },
        ReflowPhase { name: ReflowPhaseName::Reflow, duration_secs: 30, end_temp: 185 },
    ]
}

/// The reflow profile for the Sn42Bi58 alloy.
pub fn sn42bi58() -> (profile: AlloyReflowProfile)
    ensures
        profile.alloy@ == "Sn42Bi58"@,
        profile.phases@ == sn42bi58_phases(),
{
    AlloyReflowProfile {
        alloy: "Sn42Bi58",
        phases: vec![
            ReflowPhase { name: ReflowPhaseName::Preheat, duration_secs: 90, end_temp: 120 },
            ReflowPhase { name: ReflowPhaseName::Soak, duration_secs: 60, end_temp: 138 },
            ReflowPhase { name: ReflowPhaseName::Reflow, duration_secs: 30, end_temp: 165 },
        ],
    }
}

/// The reflow profile for the Sn64Bi35Ag1 alloy.
pub fn sn64bi35ag1() -> (profile: AlloyReflowProfile)
    ensures
        profile.alloy@ == "Sn64Bi35Ag1"@,
        profile.phases@ == sn64bi35ag1_phases(),
{
    AlloyReflowProfile {
        alloy: "Sn64Bi35Ag1",
        phases: vec![
            ReflowPhase { name: ReflowPhaseName::Preheat, duration_secs: 90, end_temp: 130 },
            ReflowPhase { name: ReflowPhaseName::Soak, duration_secs: 60, end_temp: 150 },
            ReflowPhase { name: ReflowPhaseName::Reflow, duration_secs: 30, end_temp: 185 },
        ],
    }
}

/// The profiles that can be selected, in the order in which they are offered.
pub fn profiles() -> (all: Vec<AlloyReflowProfile>)
    ensures
        all@.len() == 2,
        all@[0].alloy@ == "Sn42Bi58"@,
        all@[0].phases@ == sn42bi58_phases(),
        all@[1].alloy@ == "Sn64Bi35Ag1"@,
        all@[1].phases@ == sn64bi35ag1_phases(),
{
    let mut all = Vec::new();
    all.push(sn42bi58());
    all.push(sn64bi35ag1());
    all
}

/// The alloy names of the given profiles, in the same order.
pub fn profile_names(profiles: &Vec<AlloyReflowProfile>) -> (names: Vec<&'static str>)
    ensures
        names@.len() == profiles@.len(),
        forall|i: int| 0 <= i < profiles@.len() ==> #[trigger] names@[i] == profiles@[i].alloy,
{
    let mut names = Vec::new();
    let mut i: usize = 0;
    while i < profiles.len()
        invariant
            i <= profiles@.len(),
            names@.len() == i,
            forall|j: int| 0 <= j < i ==> #[trigger] names@[j] == profiles@[j].alloy,
        decreases profiles@.len() - i,
    {
        names.push(profiles[i].alloy);
        i = i + 1;
    }
    names
}

/// Both built-in profiles last three minutes: 90 s preheat, 60 s soak, 30 s reflow.
pub proof fn law_builtin_profiles_last_three_minutes()
    ensures
        total_duration_of(sn42bi58_phases()) == 180,
        total_duration_of(sn64bi35ag1_phases()) == 180,
        sn42bi58_phases().len() == 3,
        sn64bi35ag1_phases().len() == 3,
{
    reveal_with_fuel(duration_prefix, 4);
}

} // verus!
