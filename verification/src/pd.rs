use vstd::prelude::*;

verus! {

/// The highest voltage, in whole volts, that the heater may be supplied with.
pub const MAX_PD_VOLTAGE: u32 = 22;

/// The lowest voltage, in whole volts, of a fixed supply that is worth requesting.
pub const MIN_FIXED_VOLTAGE: u32 = 12;

/// The limits of the supply that was negotiated, in millivolts and milliamperes.
#[derive(Clone, Copy, PartialEq, Eq, Structural, Debug)]
pub struct NegotiatedPdPowerLimits {
    pub voltage_mv: u32,
    pub max_current_ma: u32,
}

/// The state of USB Power Delivery negotiation that the rest of the firmware sees.
#[derive(Clone, Copy, PartialEq, Eq, Structural, Debug)]
pub enum State {
    NotAttached,
    Good(NegotiatedPdPowerLimits),
    Error,
}

/// A fixed supply offered by the source.
#[derive(Clone, Copy, PartialEq, Eq, Structural, Debug)]
pub struct FixedSupply {
    pub voltage_mv: u32,
    pub max_current_ma: u32,
}

/// An SPR programmable power supply (PPS) offered by the source.
#[derive(Clone, Copy, PartialEq, Eq, Structural, Debug)]
pub struct PpsSupply {
    pub min_voltage_mv: u32,
    pub max_voltage_mv: u32,
    pub max_current_ma: u32,
}

/// An EPR adjustable voltage supply (AVS) offered by the source; its power in microwatts.
#[derive(Clone, Copy, PartialEq, Eq, Structural, Debug)]
pub struct AvsSupply {
    pub min_voltage_mv: u32,
    pub max_voltage_mv: u32,
    pub pd_power_uw: u32,
}

/// One power data object of the source's capabilities, with what the sink reads of it.
#[derive(Clone, Copy, PartialEq, Eq, Structural, Debug)]
pub enum PowerDataObject {
    FixedSupply(FixedSupply),
    Battery,
    VariableSupply,
    Pps(PpsSupply),
    Avs(AvsSupply),
    Unknown,
}

/// The power data objects of the source, in object position order (position `i + 1`
/// at index `i`). Positions 1 to 7 hold SPR objects, positions 8 and above EPR objects.
#[derive(Debug)]
pub struct SourceCapabilities {
    pub pdos: Vec<PowerDataObject>,
}

/// The three kinds of supply that the sink considers.
#[derive(Clone, Copy, PartialEq, Eq, Structural, Debug)]
pub enum SupplyKind {
    EprAvs,
    SprPps,
    Fixed,
}

/// A request that the sink may put to the source.
#[derive(Clone, Copy, PartialEq, Eq, Structural, Debug)]
pub enum RequestAttempt {
    /// An EPR AVS request at the given voltage, for the highest current.
    EprAvs { voltage_mv: u32 },
    /// An SPR PPS request at the given voltage, for the highest current.
    Pps { voltage_mv: u32 },
    /// A fixed supply request at exactly the given voltage, for the highest current.
    Fixed { voltage_mv: u32 },
    /// A request for the vSafe5V fixed supply, for the highest current.
    Safe5V,
}

/// A request together with the state to publish if the source's capabilities admit it.
#[derive(Clone, Copy, PartialEq, Eq, Structural, Debug)]
pub struct PlannedRequest {
    pub attempt: RequestAttempt,
    pub state_on_success: State,
}

/// What came of a negotiation: the request to send (none where no request could be
/// made, which the firmware treats as fatal) and the state to publish, if any.
pub struct Negotiation<R> {
    pub request: Option<R>,
    pub state: Option<State>,
}

/// A voltage in whole volts as the unit library reads a millivolt quantity: rounded down.
pub open spec fn whole_volts(mv: u32) -> int {
    mv as int / 1000
}

/// Whether object `i` is a supply of `kind` that the sink would consider.
pub open spec fn is_candidate(pdos: Seq<PowerDataObject>, kind: SupplyKind, i: int) -> bool {
    &&& 0 <= i < pdos.len()
    &&& match kind {
        SupplyKind::EprAvs => 7 <= i && pdos[i] is Avs && whole_volts(pdos[i]->Avs_0.min_voltage_mv)
            <= MAX_PD_VOLTAGE,
        SupplyKind::SprPps => i < 7 && pdos[i] is Pps && whole_volts(pdos[i]->Pps_0.min_voltage_mv)
            <= MAX_PD_VOLTAGE,
        SupplyKind::Fixed => pdos[i] is FixedSupply && MIN_FIXED_VOLTAGE <= whole_volts(
            pdos[i]->FixedSupply_0.voltage_mv,
        ) <= MAX_PD_VOLTAGE,
    }
}

/// How the sink ranks a supply: an AVS by its power, a PPS by its highest voltage times
/// its highest current, a fixed supply by its voltage times its highest current.
pub open spec fn offer_key(pdo: PowerDataObject) -> int {
    match pdo {
        PowerDataObject::Avs(a) => a.pd_power_uw as int,
        PowerDataObject::Pps(p) => p.max_voltage_mv * p.max_current_ma,
        PowerDataObject::FixedSupply(f) => f.voltage_mv * f.max_current_ma,
        _ => 0,
    }
}

/// Object `i` is the best candidate of `kind`: no candidate ranks higher, and every later
/// candidate ranks strictly lower (of equally ranked candidates the last one wins).
pub open spec fn is_best_offer(pdos: Seq<PowerDataObject>, kind: SupplyKind, i: int) -> bool {
    &&& is_candidate(pdos, kind, i)
    &&& forall|j: int|
        #![trigger is_candidate(pdos, kind, j)]
        is_candidate(pdos, kind, j) ==> offer_key(pdos[j]) <= offer_key(pdos[i]) && (i < j
            ==> offer_key(pdos[j]) < offer_key(pdos[i]))
}

/// The index of the best candidate of `kind`, if there is any candidate.
pub open spec fn best_offer(pdos: Seq<PowerDataObject>, kind: SupplyKind) -> Option<int> {
    if exists|i: int| is_best_offer(pdos, kind, i) {
        Some(choose|i: int| is_best_offer(pdos, kind, i))
    } else {
        None
    }
}

/// There is at most one best candidate.
pub proof fn lemma_best_offer_unique(pdos: Seq<PowerDataObject>, kind: SupplyKind, i: int, j: int)
    requires
        is_best_offer(pdos, kind, i),
        is_best_offer(pdos, kind, j),
    ensures
        i == j,
{
    assert(is_candidate(pdos, kind, j));
    assert(is_candidate(pdos, kind, i));
}

/// The best candidate, where there is one, is a candidate.
pub proof fn lemma_best_offer_is_candidate(pdos: Seq<PowerDataObject>, kind: SupplyKind)
    ensures
        best_offer(pdos, kind) matches Some(i) ==> is_best_offer(pdos, kind, i) && is_candidate(
            pdos,
            kind,
            i,
        ),
{
}

/// The smaller of two voltages.
pub open spec fn min_mv(a: int, b: int) -> int {
    if a < b {
        a
    } else {
        b
    }
}

/// The highest voltage of the best PPS, or 0 if there is none.
pub open spec fn best_pps_max_mv(pdos: Seq<PowerDataObject>) -> int {
    match best_offer(pdos, SupplyKind::SprPps) {
        Some(i) => pdos[i]->Pps_0.max_voltage_mv as int,
        None => 0,
    }
}

/// The voltage of the best fixed supply, or 0 if there is none.
pub open spec fn best_fixed_mv(pdos: Seq<PowerDataObject>) -> int {
    match best_offer(pdos, SupplyKind::Fixed) {
        Some(i) => pdos[i]->FixedSupply_0.voltage_mv as int,
        None => 0,
    }
}

/// The current that an AVS of `power_uw` allows at `voltage_mv`, in milliamperes
/// (power over voltage, rounded down; 0 at 0 V, where the source cannot accept a request).
pub open spec fn avs_current_ma(power_uw: u32, voltage_mv: int) -> int {
    if voltage_mv == 0 {
        0
    } else {
        power_uw as int / voltage_mv
    }
}

/// The EPR AVS request, planned when the best AVS reaches at least the voltage of the best
/// PPS and of the best fixed supply: at its highest voltage, capped at `MAX_PD_VOLTAGE`.
pub open spec fn planned_epr(pdos: Seq<PowerDataObject>) -> Seq<PlannedRequest> {
    match best_offer(pdos, SupplyKind::EprAvs) {
        Some(i) => {
            let a = pdos[i]->Avs_0;
            if a.max_voltage_mv >= best_pps_max_mv(pdos) && a.max_voltage_mv >= best_fixed_mv(
                pdos,
            ) {
                let v = min_mv(a.max_voltage_mv as int, MAX_PD_VOLTAGE * 1000);
                seq![
                    PlannedRequest {
                        attempt: RequestAttempt::EprAvs { voltage_mv: v as u32 },
                        state_on_success: State::Good(
                            NegotiatedPdPowerLimits {
                                voltage_mv: v as u32,
                                max_current_ma: avs_current_ma(a.pd_power_uw, v) as u32,
                            },
                        ),
                    },
                ]
            } else {
                seq![]
            }
        },
        None => seq![],
    }
}

/// The PPS request, planned when the best PPS reaches at least the voltage of the best
/// fixed supply: at its highest voltage, capped at `MAX_PD_VOLTAGE`.
pub open spec fn planned_pps(pdos: Seq<PowerDataObject>) -> Seq<PlannedRequest> {
    match best_offer(pdos, SupplyKind::SprPps) {
        Some(i) => {
            let p = pdos[i]->Pps_0;
            if p.max_voltage_mv >= best_fixed_mv(pdos) {
                let v = min_mv(p.max_voltage_mv as int, MAX_PD_VOLTAGE * 1000);
                seq![
                    PlannedRequest {
                        attempt: RequestAttempt::Pps { voltage_mv: v as u32 },
                        state_on_success: State::Good(
                            NegotiatedPdPowerLimits {
                                voltage_mv: v as u32,
                                max_current_ma: p.max_current_ma,
                            },
                        ),
                    },
                ]
            } else {
                seq![]
            }
        },
        None => seq![],
    }
}

/// The request for the best fixed supply, at its own voltage.
pub open spec fn planned_fixed(pdos: Seq<PowerDataObject>) -> Seq<PlannedRequest> {
    match best_offer(pdos, SupplyKind::Fixed) {
        Some(i) => {
            let f = pdos[i]->FixedSupply_0;
            seq![
                PlannedRequest {
                    attempt: RequestAttempt::Fixed { voltage_mv: f.voltage_mv },
                    state_on_success: State::Good(
                        NegotiatedPdPowerLimits {
                            voltage_mv: f.voltage_mv,
                            max_current_ma: f.max_current_ma,
                        },
                    ),
                },
            ]
        },
        None => seq![],
    }
}

/// The requests to try, in order of preference.
pub open spec fn planned_requests(pdos: Seq<PowerDataObject>) -> Seq<PlannedRequest> {
    planned_epr(pdos) + planned_pps(pdos) + planned_fixed(pdos)
}

/// The rank of a supply (see `offer_key`).
fn key_of(pdo: &PowerDataObject) -> (k: u64)
    ensures
        k == offer_key(*pdo),
{
    match pdo {
        PowerDataObject::Avs(a) => a.pd_power_uw as u64,
        PowerDataObject::Pps(p) => {
            proof {
                vstd::arithmetic::mul::lemma_mul_upper_bound(
                    p.max_voltage_mv as int,
                    u32::MAX as int,
                    p.max_current_ma as int,
                    u32::MAX as int,
                );
            }
            p.max_voltage_mv as u64 * p.max_current_ma as u64
        },
        PowerDataObject::FixedSupply(f) => {
            proof {
                vstd::arithmetic::mul::lemma_mul_upper_bound(
                    f.voltage_mv as int,
                    u32::MAX as int,
                    f.max_current_ma as int,
                    u32::MAX as int,
                );
            }
            f.voltage_mv as u64 * f.max_current_ma as u64
        },
        _ => 0,
    }
}

/// Whether object `i` is a candidate of `kind`.
fn candidate(pdos: &Vec<PowerDataObject>, kind: SupplyKind, i: usize) -> (c: bool)
    requires
        i < pdos@.len(),
    ensures
        c == is_candidate(pdos@, kind, i as int),
{
    match (kind, &pdos[i]) {
        (SupplyKind::EprAvs, PowerDataObject::Avs(a)) => 7 <= i && a.min_voltage_mv / 1000
            <= MAX_PD_VOLTAGE,
        (SupplyKind::SprPps, PowerDataObject::Pps(p)) => i < 7 && p.min_voltage_mv / 1000
            <= MAX_PD_VOLTAGE,
        (SupplyKind::Fixed, PowerDataObject::FixedSupply(f)) => MIN_FIXED_VOLTAGE <= f.voltage_mv
            / 1000 && f.voltage_mv / 1000 <= MAX_PD_VOLTAGE,
        _ => false,
    }
}

/// The index of the best supply of `kind` among the source's objects: the one that ranks
/// highest, the last of those that rank equally; `None` if no object is a candidate.
pub fn best_offer_index(caps: &SourceCapabilities, kind: SupplyKind) -> (best: Option<usize>)
    ensures
        best matches Some(b) ==> best_offer(caps.pdos@, kind) == Some(b as int),
        best is None ==> best_offer(caps.pdos@, kind) is None,
        best is None <==> forall|j: int| !is_candidate(caps.pdos@, kind, j),
{
    let pdos = &caps.pdos;
    let mut best: Option<usize> = None;
    let mut best_key: u64 = 0;
    let mut i: usize = 0;
    while i < pdos.len()
        invariant
            i <= pdos@.len(),
            best is None ==> forall|j: int| 0 <= j < i ==> !is_candidate(pdos@, kind, j),
            best matches Some(b) ==> {
                &&& b < i
                &&& is_candidate(pdos@, kind, b as int)
                &&& best_key == offer_key(pdos@[b as int])
                &&& forall|j: int|
                    #![trigger is_candidate(pdos@, kind, j)]
                    0 <= j < i && is_candidate(pdos@, kind, j) ==> offer_key(pdos@[j]) <= best_key
                        && (b < j ==> offer_key(pdos@[j]) < best_key)
            },
        decreases pdos@.len() - i,
    {
        if candidate(pdos, kind, i) {
            let k = key_of(&pdos[i]);
            if best.is_none() || k >= best_key {
                best = Some(i);
                best_key = k;
            }
        }
        i = i + 1;
    }
    proof {
        match best {
            Some(b) => {
                assert(is_best_offer(pdos@, kind, b as int));
                let c = choose|c: int| is_best_offer(pdos@, kind, c);
                lemma_best_offer_unique(pdos@, kind, b as int, c);
            },
            None => {
                assert forall|j: int| !is_candidate(pdos@, kind, j) by {
                    if 0 <= j < pdos@.len() {
                        assert(!is_candidate(pdos@, kind, j));
                    }
                }
                assert(!exists|j: int| is_best_offer(pdos@, kind, j));
            },
        }
    }
    best
}

/// The smaller of two voltages, in millivolts.
pub fn min_voltage(v1: u32, v2: u32) -> (v: u32)
    ensures
        v == min_mv(v1 as int, v2 as int),
{
    if v1 < v2 {
        v1
    } else {
        v2
    }
}

/// The requests to try, in order of preference: the EPR AVS request, the PPS request and
/// the fixed supply request, each where it is planned (see `planned_requests`).
pub fn plan_requests(caps: &SourceCapabilities) -> (plan: Vec<PlannedRequest>)
    ensures
        plan@ == planned_requests(caps.pdos@),
{
    let ghost pdos = caps.pdos@;
    proof {
        lemma_best_offer_is_candidate(pdos, SupplyKind::EprAvs);
        lemma_best_offer_is_candidate(pdos, SupplyKind::SprPps);
        lemma_best_offer_is_candidate(pdos, SupplyKind::Fixed);
    }
    let epr = best_offer_index(caps, SupplyKind::EprAvs);
    let spr = best_offer_index(caps, SupplyKind::SprPps);
    let fixed = best_offer_index(caps, SupplyKind::Fixed);
    let spr_max: u32 = match spr {
        Some(i) => match &caps.pdos[i] {
            PowerDataObject::Pps(p) => p.max_voltage_mv,
            _ => 0,
        },
        None => 0,
    };
    let fixed_v: u32 = match fixed {
        Some(i) => match &caps.pdos[i] {
            PowerDataObject::FixedSupply(f) => f.voltage_mv,
            _ => 0,
        },
        None => 0,
    };
    assert(spr_max == best_pps_max_mv(pdos));
    assert(fixed_v == best_fixed_mv(pdos));
    let mut plan: Vec<PlannedRequest> = Vec::new();
    if let Some(i) = epr {
        if let PowerDataObject::Avs(a) = &caps.pdos[i] {
            if a.max_voltage_mv >= spr_max && a.max_voltage_mv >= fixed_v {
                let v = min_voltage(a.max_voltage_mv, MAX_PD_VOLTAGE * 1000);
                let current = if v == 0 {
                    0
                } else {
                    a.pd_power_uw / v
                };
                plan.push(
                    PlannedRequest {
                        attempt: RequestAttempt::EprAvs { voltage_mv: v },
                        state_on_success: State::Good(
                            NegotiatedPdPowerLimits { voltage_mv: v, max_current_ma: current },
                        ),
                    },
                );
            }
        }
    }
    assert(plan@ == planned_epr(pdos));
    if let Some(i) = spr {
        if let PowerDataObject::Pps(p) = &caps.pdos[i] {
            if p.max_voltage_mv >= fixed_v {
                let v = min_voltage(p.max_voltage_mv, MAX_PD_VOLTAGE * 1000);
                plan.push(
                    PlannedRequest {
                        attempt: RequestAttempt::Pps { voltage_mv: v },
                        state_on_success: State::Good(
                            NegotiatedPdPowerLimits { voltage_mv: v, max_current_ma: p.max_current_ma },
                        ),
                    },
                );
            }
        }
    }
    assert(plan@ == planned_epr(pdos) + planned_pps(pdos));
    if let Some(i) = fixed {
        if let PowerDataObject::FixedSupply(f) = &caps.pdos[i] {
            plan.push(
                PlannedRequest {
                    attempt: RequestAttempt::Fixed { voltage_mv: f.voltage_mv },
                    state_on_success: State::Good(
                        NegotiatedPdPowerLimits {
                            voltage_mv: f.voltage_mv,
                            max_current_ma: f.max_current_ma,
                        },
                    ),
                },
            );
        }
    }
    plan
}

/// How the source's capabilities answer a request.
pub enum Answer<R> {
    /// The capabilities admit the request, which is `R`.
    Accepted(R),
    /// The capabilities do not admit the request.
    Refused,
    /// The request cannot be built at all; negotiation stops without a request.
    Abort,
}

/// `f` refused the first `k` planned requests.
pub open spec fn refused_first<R, F: Fn(RequestAttempt) -> Answer<R>>(
    f: F,
    plan: Seq<PlannedRequest>,
    k: int,
) -> bool {
    forall|j: int| 0 <= j < k ==> f.ensures((#[trigger] plan[j].attempt,), Answer::<R>::Refused)
}

/// The `k`-th planned request is the first that `f` accepted, with `r`.
pub open spec fn first_accepted<R, F: Fn(RequestAttempt) -> Answer<R>>(
    f: F,
    plan: Seq<PlannedRequest>,
    k: int,
    r: R,
) -> bool {
    &&& 0 <= k < plan.len()
    &&& refused_first(f, plan, k)
    &&& f.ensures((plan[k].attempt,), Answer::Accepted(r))
}

/// `f` refused the planned requests before the `k`-th and could not build the `k`-th.
pub open spec fn first_aborted<R, F: Fn(RequestAttempt) -> Answer<R>>(
    f: F,
    plan: Seq<PlannedRequest>,
    k: int,
) -> bool {
    &&& 0 <= k < plan.len()
    &&& refused_first(f, plan, k)
    &&& f.ensures((plan[k].attempt,), Answer::<R>::Abort)
}

/// What negotiation with the source's objects `pdos` gives when `f` answers each request:
/// the first planned request that is accepted, with the state planned for it; nothing
/// at all where a request before it cannot be built; when all are refused and a fixed
/// supply was planned, the vSafe5V request with the state `Error` (no request where that
/// is not accepted); and when all are refused and no fixed supply was planned, neither a
/// request nor a state.
pub open spec fn negotiation_outcome<R, F: Fn(RequestAttempt) -> Answer<R>>(
    pdos: Seq<PowerDataObject>,
    f: F,
    n: Negotiation<R>,
) -> bool {
    let plan = planned_requests(pdos);
    let fallback = best_offer(pdos, SupplyKind::Fixed) is Some;
    match n.request {
        Some(r) => (exists|k: int|
            #[trigger] first_accepted(f, plan, k, r) && n.state == Some(plan[k].state_on_success))
            || (refused_first(f, plan, plan.len() as int) && fallback && f.ensures(
            (RequestAttempt::Safe5V,),
            Answer::Accepted(r),
        ) && n.state == Some(State::Error)),
        None => (exists|k: int| #[trigger] first_aborted(f, plan, k) && n.state is None) || (
        refused_first(f, plan, plan.len() as int) && (if fallback {
            (f.ensures((RequestAttempt::Safe5V,), Answer::<R>::Refused) || f.ensures(
                (RequestAttempt::Safe5V,),
                Answer::<R>::Abort,
            )) && n.state == Some(State::Error)
        } else {
            n.state is None
        })),
    }
}

/// Negotiates with a source: tries the planned requests in order with `try_request`, which
/// answers whether the source's capabilities admit a request, and stops at the first
/// that is admitted, or without a request at the first that cannot be built. When all are
/// refused, and a fixed supply was planned, the state becomes `Error` and vSafe5V is
/// requested.
pub fn negotiate<R, F: Fn(RequestAttempt) -> Answer<R>>(caps: &SourceCapabilities, try_request: F) -> (n:
    Negotiation<R>)
    requires
        forall|a: RequestAttempt| try_request.requires((a,)),
    ensures
        negotiation_outcome(caps.pdos@, try_request, n),
{
    let plan = plan_requests(caps);
    let mut k: usize = 0;
    while k < plan.len()
        invariant
            plan@ == planned_requests(caps.pdos@),
            k <= plan@.len(),
            refused_first(try_request, plan@, k as int),
            forall|a: RequestAttempt| try_request.requires((a,)),
        decreases plan@.len() - k,
    {
        let planned = plan[k];
        let answer = try_request(planned.attempt);
        match answer {
            Answer::Accepted(r) => {
                let n = Negotiation { request: Some(r), state: Some(planned.state_on_success) };
                assert(first_accepted(try_request, plan@, k as int, n.request->0));
                return n;
            },
            Answer::Abort => {
                assert(first_aborted(try_request, plan@, k as int));
                return Negotiation { request: None, state: None };
            },
            Answer::Refused => {},
        }
        assert(refused_first(try_request, plan@, k + 1));
        k = k + 1;
    }
    if best_offer_index(caps, SupplyKind::Fixed).is_some() {
        match try_request(RequestAttempt::Safe5V) {
            Answer::Accepted(r) => Negotiation { request: Some(r), state: Some(State::Error) },
            _ => Negotiation { request: None, state: Some(State::Error) },
        }
    } else {
        Negotiation { request: None, state: None }
    }
}

/// The voltage a request asks for (vSafe5V asks for 5 V).
pub open spec fn attempt_voltage_mv(a: RequestAttempt) -> int {
    match a {
        RequestAttempt::EprAvs { voltage_mv } => voltage_mv as int,
        RequestAttempt::Pps { voltage_mv } => voltage_mv as int,
        RequestAttempt::Fixed { voltage_mv } => voltage_mv as int,
        RequestAttempt::Safe5V => 5000,
    }
}

/// The heater is never asked to take more than `MAX_PD_VOLTAGE` whole volts: every planned
/// request asks for at most that, a fixed supply for at least `MIN_FIXED_VOLTAGE` whole
/// volts, and the state planned for a request reports the voltage it asks for. At most
/// one request of each kind is planned, in the order AVS, PPS, fixed.
pub proof fn law_requests_stay_within_voltage_limit(pdos: Seq<PowerDataObject>)
    ensures
        ({
            let plan = planned_requests(pdos);
            &&& plan.len() <= 3
            &&& forall|k: int|
                0 <= k < plan.len() ==> {
                    let a = #[trigger] plan[k].attempt;
                    &&& whole_volts(attempt_voltage_mv(a) as u32) <= MAX_PD_VOLTAGE
                    &&& a is Fixed ==> MIN_FIXED_VOLTAGE <= whole_volts(attempt_voltage_mv(a) as u32)
                    &&& plan[k].state_on_success matches State::Good(l) && l.voltage_mv
                        == attempt_voltage_mv(a)
                }
            &&& forall|k: int, m: int|
                0 <= k < m < plan.len() ==> (#[trigger] plan[k].attempt is EprAvs && !(
                #[trigger] plan[m].attempt is EprAvs)) || (plan[k].attempt is Pps
                && plan[m].attempt is Fixed)
        }),
{
    lemma_best_offer_is_candidate(pdos, SupplyKind::EprAvs);
    lemma_best_offer_is_candidate(pdos, SupplyKind::SprPps);
    lemma_best_offer_is_candidate(pdos, SupplyKind::Fixed);
    let e = planned_epr(pdos);
    let p = planned_pps(pdos);
    let f = planned_fixed(pdos);
    let plan = planned_requests(pdos);
    assert(e.len() <= 1 && p.len() <= 1 && f.len() <= 1);
    assert forall|k: int| 0 <= k < plan.len() implies ({
        let a = #[trigger] plan[k].attempt;
        &&& whole_volts(attempt_voltage_mv(a) as u32) <= MAX_PD_VOLTAGE
        &&& a is Fixed ==> MIN_FIXED_VOLTAGE <= whole_volts(attempt_voltage_mv(a) as u32)
        &&& plan[k].state_on_success matches State::Good(l) && l.voltage_mv == attempt_voltage_mv(
            a,
        )
    }) by {
        if k < e.len() {
            assert(plan[k] == e[k]);
        } else if k < e.len() + p.len() {
            assert(plan[k] == p[k - e.len()]);
        } else {
            assert(plan[k] == f[k - e.len() - p.len()]);
        }
    }
    assert forall|k: int, m: int| 0 <= k < m < plan.len() implies (#[trigger] plan[k].attempt is EprAvs
        && !(#[trigger] plan[m].attempt is EprAvs)) || (plan[k].attempt is Pps
        && plan[m].attempt is Fixed) by {
        if k < e.len() {
            assert(plan[k] == e[k]);
            if m < e.len() + p.len() {
                assert(plan[m] == p[m - e.len()]);
            } else {
                assert(plan[m] == f[m - e.len() - p.len()]);
            }
        } else {
            assert(plan[k] == p[k - e.len()]);
            assert(plan[m] == f[m - e.len() - p.len()]);
        }
    }
}

/// The current reported for an AVS supply is the most it can deliver at the requested
/// voltage without exceeding its power.
pub proof fn law_avs_current_within_power(power_uw: u32, voltage_mv: int)
    requires
        voltage_mv > 0,
    ensures
        avs_current_ma(power_uw, voltage_mv) * voltage_mv <= power_uw,
        power_uw < (avs_current_ma(power_uw, voltage_mv) + 1) * voltage_mv,
{
    vstd::arithmetic::div_mod::lemma_fundamental_div_mod(power_uw as int, voltage_mv);
    vstd::arithmetic::div_mod::lemma_mod_bound(power_uw as int, voltage_mv);
    let q = power_uw as int / voltage_mv;
    assert((q + 1) * voltage_mv == q * voltage_mv + voltage_mv) by (nonlinear_arith);
    assert(q * voltage_mv == voltage_mv * q) by (nonlinear_arith);
}

/// Object `i` ranks best among the candidates of `kind` before position `n`.
pub open spec fn is_best_before(pdos: Seq<PowerDataObject>, kind: SupplyKind, i: int, n: int) -> bool {
    &&& i < n
    &&& is_candidate(pdos, kind, i)
    &&& forall|j: int|
        #![trigger is_candidate(pdos, kind, j)]
        j < n && is_candidate(pdos, kind, j) ==> offer_key(pdos[j]) <= offer_key(pdos[i]) && (i < j
            ==> offer_key(pdos[j]) < offer_key(pdos[i]))
}

proof fn lemma_best_before_exists(pdos: Seq<PowerDataObject>, kind: SupplyKind, n: int)
    requires
        0 <= n <= pdos.len(),
        exists|j: int| j < n && is_candidate(pdos, kind, j),
    ensures
        exists|i: int| is_best_before(pdos, kind, i, n),
    decreases n,
{
    let last = n - 1;
    if exists|j: int| j < last && is_candidate(pdos, kind, j) {
        lemma_best_before_exists(pdos, kind, last);
        let i = choose|i: int| is_best_before(pdos, kind, i, last);
        if is_candidate(pdos, kind, last) && offer_key(pdos[last]) >= offer_key(pdos[i]) {
            assert(is_best_before(pdos, kind, last, n));
        } else {
            assert(is_best_before(pdos, kind, i, n));
        }
    } else {
        assert(is_candidate(pdos, kind, last));
        assert(is_best_before(pdos, kind, last, n));
    }
}

/// Whenever the source offers a supply of a kind the sink considers, one of them is the
/// best, and it ranks at least as high as every other candidate of its kind.
pub proof fn law_best_offer_exists_and_ranks_highest(pdos: Seq<PowerDataObject>, kind: SupplyKind, j: int)
    requires
        is_candidate(pdos, kind, j),
    ensures
        best_offer(pdos, kind) matches Some(i) && is_candidate(pdos, kind, i) && offer_key(pdos[j])
            <= offer_key(pdos[i]),
{
    lemma_best_before_exists(pdos, kind, pdos.len() as int);
    let i = choose|i: int| is_best_before(pdos, kind, i, pdos.len() as int);
    assert(is_best_offer(pdos, kind, i));
    lemma_best_offer_is_candidate(pdos, kind);
}

/// A source that offers a fixed supply between `MIN_FIXED_VOLTAGE` and `MAX_PD_VOLTAGE`
/// whole volts always gets a fixed supply request planned, as the last resort before
/// vSafe5V.
pub proof fn law_fixed_supply_is_always_planned(pdos: Seq<PowerDataObject>, j: int)
    requires
        is_candidate(pdos, SupplyKind::Fixed, j),
    ensures
        planned_requests(pdos).len() >= 1,
        planned_requests(pdos).last().attempt is Fixed,
{
    law_best_offer_exists_and_ranks_highest(pdos, SupplyKind::Fixed, j);
}

/// Which objects are considered, in millivolts: a fixed supply from 12 V up to (not
/// including) 23 V; a PPS among the first seven objects whose lowest voltage is below
/// 23 V; an AVS from the eighth object on whose lowest voltage is below 23 V. Nothing
/// else is a candidate.
pub proof fn law_candidate_voltages(pdos: Seq<PowerDataObject>, i: int)
    requires
        0 <= i < pdos.len(),
    ensures
        is_candidate(pdos, SupplyKind::Fixed, i) <==> (pdos[i] matches PowerDataObject::FixedSupply(
            f,
        ) && 12000 <= f.voltage_mv && f.voltage_mv < 23000),
        is_candidate(pdos, SupplyKind::SprPps, i) <==> (i < 7 && (pdos[i] matches PowerDataObject::Pps(
            p,
        ) && p.min_voltage_mv < 23000)),
        is_candidate(pdos, SupplyKind::EprAvs, i) <==> (7 <= i && (pdos[i] matches PowerDataObject::Avs(
            a,
        ) && a.min_voltage_mv < 23000)),
{
}

/// How supplies rank: a PPS by its highest voltage times its highest current, a fixed
/// supply by its voltage times its highest current, an AVS by its power.
pub proof fn law_offer_ranking(p: PpsSupply, f: FixedSupply, a: AvsSupply)
    ensures
        offer_key(PowerDataObject::Pps(p)) == p.max_voltage_mv * p.max_current_ma,
        offer_key(PowerDataObject::FixedSupply(f)) == f.voltage_mv * f.max_current_ma,
        offer_key(PowerDataObject::Avs(a)) == a.pd_power_uw,
{
}

/// The best offer of each kind ranks at least as high as every other candidate of that
/// kind: no PPS candidate has a larger highest-voltage times highest-current product, no
/// fixed candidate a larger voltage times current, and no AVS candidate more power.
pub proof fn law_best_offer_beats_every_candidate(pdos: Seq<PowerDataObject>, kind: SupplyKind, i: int, j: int)
    requires
        best_offer(pdos, kind) == Some(i),
        is_candidate(pdos, kind, j),
    ensures
        pdos[i] matches PowerDataObject::Pps(pi) ==> pdos[j] matches PowerDataObject::Pps(pj)
            && pj.max_voltage_mv * pj.max_current_ma <= pi.max_voltage_mv * pi.max_current_ma,
        pdos[i] matches PowerDataObject::FixedSupply(fi) ==> pdos[j] matches PowerDataObject::FixedSupply(fj)
            && fj.voltage_mv * fj.max_current_ma <= fi.voltage_mv * fi.max_current_ma,
        pdos[i] matches PowerDataObject::Avs(ai) ==> pdos[j] matches PowerDataObject::Avs(aj)
            && aj.pd_power_uw <= ai.pd_power_uw,
        is_candidate(pdos, kind, i),
{
    assert(exists|k: int| is_best_offer(pdos, kind, k));
    assert(is_best_offer(pdos, kind, i));
    assert(is_candidate(pdos, kind, j));
}

/// The plan holds at most one request of each kind, in order of preference (EPR AVS, then
/// PPS, then fixed supply), never vSafe5V. An AVS or PPS request asks for the best such
/// supply at its highest voltage, but at most 22 V; a fixed request asks for the best
/// fixed supply at its own voltage. The state published on success carries the requested
/// voltage, and for a PPS or fixed supply its highest current.
pub proof fn law_plan_preference_and_voltages(pdos: Seq<PowerDataObject>)
    ensures
        planned_requests(pdos).len() <= 3,
        forall|j: int, k: int|
            0 <= j < k < planned_requests(pdos).len() ==> match (
                #[trigger] planned_requests(pdos)[j].attempt,
                #[trigger] planned_requests(pdos)[k].attempt,
            ) {
                (RequestAttempt::EprAvs { .. }, RequestAttempt::Pps { .. }) => true,
                (RequestAttempt::EprAvs { .. }, RequestAttempt::Fixed { .. }) => true,
                (RequestAttempt::Pps { .. }, RequestAttempt::Fixed { .. }) => true,
                _ => false,
            },
        forall|k: int|
            0 <= k < planned_requests(pdos).len() ==> match #[trigger] planned_requests(pdos)[k] {
                PlannedRequest {
                    attempt: RequestAttempt::EprAvs { voltage_mv },
                    state_on_success: State::Good(l),
                } => best_offer(pdos, SupplyKind::EprAvs) matches Some(i) && pdos[i] matches PowerDataObject::Avs(a)
                    && voltage_mv == (if a.max_voltage_mv < 22000 {
                    a.max_voltage_mv
                } else {
                    22000
                }) && l.voltage_mv == voltage_mv,
                PlannedRequest {
                    attempt: RequestAttempt::Pps { voltage_mv },
                    state_on_success: State::Good(l),
                } => best_offer(pdos, SupplyKind::SprPps) matches Some(i) && pdos[i] matches PowerDataObject::Pps(p)
                    && voltage_mv == (if p.max_voltage_mv < 22000 {
                    p.max_voltage_mv
                } else {
                    22000
                }) && l.voltage_mv == voltage_mv && l.max_current_ma == p.max_current_ma,
                PlannedRequest {
                    attempt: RequestAttempt::Fixed { voltage_mv },
                    state_on_success: State::Good(l),
                } => best_offer(pdos, SupplyKind::Fixed) matches Some(i) && pdos[i] matches PowerDataObject::FixedSupply(f)
                    && voltage_mv == f.voltage_mv && l.voltage_mv == f.voltage_mv && l.max_current_ma
                    == f.max_current_ma,
                _ => false,
            },
{
    lemma_best_offer_is_candidate(pdos, SupplyKind::EprAvs);
    lemma_best_offer_is_candidate(pdos, SupplyKind::SprPps);
    lemma_best_offer_is_candidate(pdos, SupplyKind::Fixed);
    let e = planned_epr(pdos);
    let p = planned_pps(pdos);
    let f = planned_fixed(pdos);
    let plan = planned_requests(pdos);
    assert(plan == e + p + f);
    assert forall|k: int| 0 <= k < plan.len() implies (#[trigger] plan[k]) == (if k < e.len() {
        e[k]
    } else if k < e.len() + p.len() {
        p[k - e.len()]
    } else {
        f[k - e.len() - p.len()]
    }) by {}
}

} // verus!
