use vstd::prelude::*;
use crate::pd::{
    best_offer, first_aborted, first_accepted, negotiate, planned_requests, refused_first,
    Answer, AvsSupply,
    FixedSupply, Negotiation, PlannedRequest, PowerDataObject, PpsSupply, RequestAttempt,
    SourceCapabilities, State, SupplyKind,
};
use usbpd::protocol_layer::message::data::request::{
    CurrentRequest, Error as RequestError, PowerSource, VoltageRequest,
};
use usbpd::protocol_layer::message::data::source_capabilities::{
    Augmented, PowerDataObject as UsbpdPdo, SourceCapabilities as UsbpdCapabilities,
};
use usbpd::units::ElectricPotential;
use uom::si::electric_current::milliampere;
use uom::si::electric_potential::millivolt;
use uom::si::power::microwatt;

verus! {

/// usbpd's request data object, handed back to its sink policy engine.
#[verifier::external_type_specification]
#[verifier::external_body]
pub struct ExPowerSource(PowerSource);

/// usbpd's error for a request that the source's capabilities do not admit.
#[verifier::external_type_specification]
#[verifier::external_body]
pub struct ExRequestError(RequestError);

/// usbpd's source capabilities, as received from the source.
#[verifier::external_type_specification]
#[verifier::external_body]
pub struct ExUsbpdCapabilities(UsbpdCapabilities);

/// The power data objects that usbpd's source capabilities hold, in object position order,
/// each read as the library's `PowerDataObject` (voltages in millivolts, currents in
/// milliamperes, power in microwatts; battery, variable and unknown objects by kind only).
pub uninterp spec fn caps_pdos(caps: UsbpdCapabilities) -> Seq<PowerDataObject>;

/// How many objects the capabilities hold (`SourceCapabilities::pdos` of usbpd, its length).
#[verifier::external_body]
fn capability_count(caps: &UsbpdCapabilities) -> (n: usize)
    ensures
        n == caps_pdos(*caps).len(),
{
    caps.pdos().len()
}

/// Object `i` of the capabilities where it is a fixed supply (usbpd's `FixedSupply::voltage`
/// and `max_current`, read in millivolts and milliamperes).
#[verifier::external_body]
fn fixed_supply_at(caps: &UsbpdCapabilities, i: usize) -> (f: Option<FixedSupply>)
    requires
        i < caps_pdos(*caps).len(),
    ensures
        f == (match caps_pdos(*caps)[i as int] {
            PowerDataObject::FixedSupply(x) => Some(x),
            _ => None,
        }),
{
    match &caps.pdos()[i] {
        UsbpdPdo::FixedSupply(f) => Some(FixedSupply {
            voltage_mv: f.voltage().get::<millivolt>(),
            max_current_ma: f.max_current().get::<milliampere>(),
        }),
        _ => None,
    }
}

/// Object `i` of the capabilities where it is an SPR PPS (usbpd's
/// `SprProgrammablePowerSupply::min_voltage`, `max_voltage` and `max_current`).
#[verifier::external_body]
fn pps_at(caps: &UsbpdCapabilities, i: usize) -> (p: Option<PpsSupply>)
    requires
        i < caps_pdos(*caps).len(),
    ensures
        p == (match caps_pdos(*caps)[i as int] {
            PowerDataObject::Pps(x) => Some(x),
            _ => None,
        }),
{
    match &caps.pdos()[i] {
        UsbpdPdo::Augmented(Augmented::Spr(s)) => Some(PpsSupply {
            min_voltage_mv: s.min_voltage().get::<millivolt>(),
            max_voltage_mv: s.max_voltage().get::<millivolt>(),
            max_current_ma: s.max_current().get::<milliampere>(),
        }),
        _ => None,
    }
}

/// Object `i` of the capabilities where it is an EPR AVS (usbpd's
/// `EprAdjustableVoltageSupply::min_voltage`, `max_voltage` and `pd_power`).
#[verifier::external_body]
fn avs_at(caps: &UsbpdCapabilities, i: usize) -> (a: Option<AvsSupply>)
    requires
        i < caps_pdos(*caps).len(),
    ensures
        a == (match caps_pdos(*caps)[i as int] {
            PowerDataObject::Avs(x) => Some(x),
            _ => None,
        }),
{
    match &caps.pdos()[i] {
        UsbpdPdo::Augmented(Augmented::Epr(e)) => Some(AvsSupply {
            min_voltage_mv: e.min_voltage().get::<millivolt>(),
            max_voltage_mv: e.max_voltage().get::<millivolt>(),
            pd_power_uw: e.pd_power().get::<microwatt>(),
        }),
        _ => None,
    }
}

/// The kind of object `i` of the capabilities where it is a battery, a variable supply, or
/// of a kind the library does not read (an unknown object or an unknown augmented one).
#[verifier::external_body]
fn other_kind_at(caps: &UsbpdCapabilities, i: usize) -> (k: PowerDataObject)
    requires
        i < caps_pdos(*caps).len(),
    ensures
        !(caps_pdos(*caps)[i as int] is FixedSupply) && !(caps_pdos(*caps)[i as int] is Pps) && !(
        caps_pdos(*caps)[i as int] is Avs) ==> k == caps_pdos(*caps)[i as int],
{
    match &caps.pdos()[i] {
        UsbpdPdo::Battery(_) => PowerDataObject::Battery,
        UsbpdPdo::VariableSupply(_) => PowerDataObject::VariableSupply,
        _ => PowerDataObject::Unknown,
    }
}

/// The source's capabilities read as the library's model.
pub fn capabilities_model(caps: &UsbpdCapabilities) -> (m: SourceCapabilities)
    ensures
        m.pdos@ == caps_pdos(*caps),
{
    let n = capability_count(caps);
    let mut pdos: Vec<PowerDataObject> = Vec::new();
    let mut i: usize = 0;
    while i < n
        invariant
            n == caps_pdos(*caps).len(),
            i <= n,
            pdos@ == caps_pdos(*caps).subrange(0, i as int),
        decreases n - i,
    {
        let p = if let Some(f) = fixed_supply_at(caps, i) {
            PowerDataObject::FixedSupply(f)
        } else if let Some(s) = pps_at(caps, i) {
            PowerDataObject::Pps(s)
        } else if let Some(a) = avs_at(caps, i) {
            PowerDataObject::Avs(a)
        } else {
            other_kind_at(caps, i)
        };
        pdos.push(p);
        proof {
            assert(pdos@ =~= caps_pdos(*caps).subrange(0, i + 1));
        }
        i = i + 1;
    }
    assert(pdos@ =~= caps_pdos(*caps));
    SourceCapabilities { pdos }
}

/// Whether `p` is an augmented supply (PPS or AVS) whose voltage range holds `v`.
pub open spec fn augmented_covers(p: PowerDataObject, v: int) -> bool {
    match p {
        PowerDataObject::Pps(s) => s.min_voltage_mv <= v <= s.max_voltage_mv,
        PowerDataObject::Avs(a) => a.min_voltage_mv <= v <= a.max_voltage_mv,
        _ => false,
    }
}

/// The first augmented object from index `i` on whose range holds `v`.
pub open spec fn first_covering_from(pdos: Seq<PowerDataObject>, v: int, i: int) -> Option<int>
    decreases pdos.len() - i,
{
    if i < 0 || i >= pdos.len() {
        None
    } else if augmented_covers(pdos[i], v) {
        Some(i)
    } else {
        first_covering_from(pdos, v, i + 1)
    }
}

/// The first fixed supply from index `i` on whose voltage is exactly `v`.
pub open spec fn first_fixed_from(pdos: Seq<PowerDataObject>, v: int, i: int) -> Option<int>
    decreases pdos.len() - i,
{
    if i < 0 || i >= pdos.len() {
        None
    } else if pdos[i] is FixedSupply && pdos[i]->FixedSupply_0.voltage_mv == v {
        Some(i)
    } else {
        first_fixed_from(pdos, v, i + 1)
    }
}

/// The object that usbpd picks for a request: for a PPS or AVS request the first
/// augmented object whose range holds the voltage, for a fixed request the first fixed
/// supply of exactly that voltage, for vSafe5V the first object where it is a fixed supply.
pub open spec fn usbpd_pick(pdos: Seq<PowerDataObject>, a: RequestAttempt) -> Option<int> {
    match a {
        RequestAttempt::EprAvs { voltage_mv } => first_covering_from(pdos, voltage_mv as int, 0),
        RequestAttempt::Pps { voltage_mv } => first_covering_from(pdos, voltage_mv as int, 0),
        RequestAttempt::Fixed { voltage_mv } => first_fixed_from(pdos, voltage_mv as int, 0),
        RequestAttempt::Safe5V => if pdos.len() > 0 && pdos[0] is FixedSupply {
            Some(0)
        } else {
            None
        },
    }
}

/// Whether usbpd builds the request: it picks an object, and for a PPS or AVS request the
/// picked object is of that kind.
pub open spec fn usbpd_accepts(pdos: Seq<PowerDataObject>, a: RequestAttempt) -> bool {
    match usbpd_pick(pdos, a) {
        None => false,
        Some(i) => match a {
            RequestAttempt::EprAvs { .. } => pdos[i] is Avs,
            RequestAttempt::Pps { .. } => pdos[i] is Pps,
            _ => true,
        },
    }
}

/// Whether usbpd panics on the request: it would build it, but from an object at position
/// 15 or above (index 14 or above), or it is an AVS request at 0 V (a division by zero).
pub open spec fn usbpd_panics(pdos: Seq<PowerDataObject>, a: RequestAttempt) -> bool {
    &&& usbpd_accepts(pdos, a)
    &&& (usbpd_pick(pdos, a)->0 >= 14 || (a matches RequestAttempt::EprAvs { voltage_mv }
        && voltage_mv == 0))
}

/// The request that `new_fixed_request` makes: a fixed supply at `voltage_mv`, or vSafe5V
/// where it is `None`.
pub open spec fn fixed_attempt(voltage_mv: Option<u32>) -> RequestAttempt {
    match voltage_mv {
        Some(v) => RequestAttempt::Fixed { voltage_mv: v },
        None => RequestAttempt::Safe5V,
    }
}

/// Calls `PowerSource::new_epr_avs` of usbpd for the highest current at `voltage_mv`,
/// and reads the built request's `object_position`: it succeeds exactly where the first
/// augmented object whose range holds the voltage is an AVS, and the request names that
/// object (its index plus one). Where that object is at position 15 or above, or the
/// voltage is 0, usbpd panics; those inputs are left out.
#[verifier::external_body]
fn new_epr_avs_request(voltage_mv: u32, caps: &UsbpdCapabilities) -> (r: Result<(PowerSource, u8), RequestError>)
    requires
        !usbpd_panics(caps_pdos(*caps), RequestAttempt::EprAvs { voltage_mv }),
    ensures
        r is Ok <==> usbpd_accepts(caps_pdos(*caps), RequestAttempt::EprAvs { voltage_mv }),
        r matches Ok(x) ==> x.1 == usbpd_pick(caps_pdos(*caps), RequestAttempt::EprAvs { voltage_mv })->0 + 1,
{
    let voltage = ElectricPotential::new::<millivolt>(voltage_mv);
    match PowerSource::new_epr_avs(CurrentRequest::Highest, voltage, caps) {
        Ok(p) => Ok((p, p.object_position())),
        Err(e) => Err(e),
    }
}

/// Calls `PowerSource::new_pps` of usbpd for the highest current at `voltage_mv`, and
/// reads the built request's `object_position`: it succeeds exactly where the first
/// augmented object whose range holds the voltage is a PPS, and the request names that
/// object (its index plus one). Where that object is at position 15 or above, usbpd
/// panics; that input is left out.
#[verifier::external_body]
fn new_pps_request(voltage_mv: u32, caps: &UsbpdCapabilities) -> (r: Result<(PowerSource, u8), RequestError>)
    requires
        !usbpd_panics(caps_pdos(*caps), RequestAttempt::Pps { voltage_mv }),
    ensures
        r is Ok <==> usbpd_accepts(caps_pdos(*caps), RequestAttempt::Pps { voltage_mv }),
        r matches Ok(x) ==> x.1 == usbpd_pick(caps_pdos(*caps), RequestAttempt::Pps { voltage_mv })->0 + 1,
{
    let voltage = ElectricPotential::new::<millivolt>(voltage_mv);
    match PowerSource::new_pps(CurrentRequest::Highest, voltage, caps) {
        Ok(p) => Ok((p, p.object_position())),
        Err(e) => Err(e),
    }
}

/// Calls `PowerSource::new_fixed` of usbpd for the highest current, at exactly
/// `voltage_mv` where it is `Some`, else at vSafe5V, and reads the built request's
/// `object_position`: it succeeds exactly where a fixed supply of that voltage exists (for
/// vSafe5V, where the first object is a fixed supply), and the request names the first
/// such supply (its index plus one). Where that supply is at position 15 or above, usbpd
/// panics; that input is left out.
#[verifier::external_body]
fn new_fixed_request(voltage_mv: Option<u32>, caps: &UsbpdCapabilities) -> (r: Result<
    (PowerSource, u8),
    RequestError,
>)
    requires
        !usbpd_panics(caps_pdos(*caps), fixed_attempt(voltage_mv)),
    ensures
        r is Ok <==> usbpd_accepts(caps_pdos(*caps), fixed_attempt(voltage_mv)),
        r matches Ok(x) ==> x.1 == usbpd_pick(caps_pdos(*caps), fixed_attempt(voltage_mv))->0 + 1,
{
    let voltage = match voltage_mv {
        Some(v) => VoltageRequest::Specific(ElectricPotential::new::<millivolt>(v)),
        None => VoltageRequest::Safe5V,
    };
    match PowerSource::new_fixed(CurrentRequest::Highest, voltage, caps) {
        Ok(p) => Ok((p, p.object_position())),
        Err(e) => Err(e),
    }
}

/// A request data object that usbpd built, with the position (index plus one) of the
/// source's object that it asks for.
#[derive(Clone, Copy)]
pub struct BuiltRequest {
    pub source: PowerSource,
    pub object_position: u8,
}

/// Asks usbpd to build the request data object for one attempt; `None` where the
/// capabilities do not admit it. The request asks for the object that usbpd picks.
fn build_request(attempt: RequestAttempt, caps: &UsbpdCapabilities) -> (r: Option<BuiltRequest>)
    requires
        !usbpd_panics(caps_pdos(*caps), attempt),
    ensures
        r is Some <==> usbpd_accepts(caps_pdos(*caps), attempt),
        r matches Some(b) ==> b.object_position == usbpd_pick(caps_pdos(*caps), attempt)->0 + 1,
{
    let built = match attempt {
        RequestAttempt::EprAvs { voltage_mv } => new_epr_avs_request(voltage_mv, caps),
        RequestAttempt::Pps { voltage_mv } => new_pps_request(voltage_mv, caps),
        RequestAttempt::Fixed { voltage_mv } => new_fixed_request(Some(voltage_mv), caps),
        RequestAttempt::Safe5V => new_fixed_request(None, caps),
    };
    match built {
        Ok((source, object_position)) => Some(BuiltRequest { source, object_position }),
        Err(_) => None,
    }
}

fn first_covering(model: &SourceCapabilities, v: u32) -> (i: Option<usize>)
    ensures
        i matches Some(k) ==> first_covering_from(model.pdos@, v as int, 0) == Some(k as int) && k
            < model.pdos@.len(),
        i is None ==> first_covering_from(model.pdos@, v as int, 0) is None,
{
    let ghost pdos = model.pdos@;
    let mut k: usize = 0;
    while k < model.pdos.len()
        invariant
            pdos == model.pdos@,
            k <= pdos.len(),
            first_covering_from(pdos, v as int, 0) == first_covering_from(pdos, v as int, k as int),
        decreases pdos.len() - k,
    {
        let covers = match &model.pdos[k] {
            PowerDataObject::Pps(s) => s.min_voltage_mv <= v && v <= s.max_voltage_mv,
            PowerDataObject::Avs(a) => a.min_voltage_mv <= v && v <= a.max_voltage_mv,
            _ => false,
        };
        if covers {
            return Some(k);
        }
        k = k + 1;
    }
    None
}

fn first_fixed(model: &SourceCapabilities, v: u32) -> (i: Option<usize>)
    ensures
        i matches Some(k) ==> first_fixed_from(model.pdos@, v as int, 0) == Some(k as int) && k
            < model.pdos@.len(),
        i is None ==> first_fixed_from(model.pdos@, v as int, 0) is None,
{
    let ghost pdos = model.pdos@;
    let mut k: usize = 0;
    while k < model.pdos.len()
        invariant
            pdos == model.pdos@,
            k <= pdos.len(),
            first_fixed_from(pdos, v as int, 0) == first_fixed_from(pdos, v as int, k as int),
        decreases pdos.len() - k,
    {
        let found = match &model.pdos[k] {
            PowerDataObject::FixedSupply(f) => f.voltage_mv == v,
            _ => false,
        };
        if found {
            return Some(k);
        }
        k = k + 1;
    }
    None
}

/// Whether usbpd would panic on the request (see `usbpd_panics`), tested before it is made.
pub fn usbpd_would_panic(model: &SourceCapabilities, attempt: RequestAttempt) -> (p: bool)
    ensures
        p == usbpd_panics(model.pdos@, attempt),
{
    match attempt {
        RequestAttempt::EprAvs { voltage_mv } => match first_covering(model, voltage_mv) {
            Some(i) => match &model.pdos[i] {
                PowerDataObject::Avs(_) => i >= 14 || voltage_mv == 0,
                _ => false,
            },
            None => false,
        },
        RequestAttempt::Pps { voltage_mv } => match first_covering(model, voltage_mv) {
            Some(i) => match &model.pdos[i] {
                PowerDataObject::Pps(_) => i >= 14,
                _ => false,
            },
            None => false,
        },
        RequestAttempt::Fixed { voltage_mv } => match first_fixed(model, voltage_mv) {
            Some(i) => i >= 14,
            None => false,
        },
        RequestAttempt::Safe5V => false,
    }
}

/// What the sink ends up with for the source's objects `pdos`: a request (given as the
/// attempt it answers) and the state to publish.
pub struct SinkOutcome {
    pub request: Option<RequestAttempt>,
    pub state: Option<State>,
}

/// The outcome from the `k`-th planned request on: the first request that usbpd builds,
/// with its planned state; nothing where usbpd would panic on a request before that; after
/// the plan, vSafe5V with the state `Error` where a fixed supply was planned (no request
/// where usbpd does not build it); else nothing.
pub open spec fn outcome_from(pdos: Seq<PowerDataObject>, plan: Seq<PlannedRequest>, k: int) -> SinkOutcome
    decreases plan.len() - k,
{
    if k < 0 || k >= plan.len() {
        if best_offer(pdos, SupplyKind::Fixed) is Some {
            SinkOutcome {
                request: if usbpd_accepts(pdos, RequestAttempt::Safe5V) {
                    Some(RequestAttempt::Safe5V)
                } else {
                    None
                },
                state: Some(State::Error),
            }
        } else {
            SinkOutcome { request: None, state: None }
        }
    } else {
        let a = plan[k].attempt;
        if usbpd_panics(pdos, a) {
            SinkOutcome { request: None, state: None }
        } else if usbpd_accepts(pdos, a) {
            SinkOutcome { request: Some(a), state: Some(plan[k].state_on_success) }
        } else {
            outcome_from(pdos, plan, k + 1)
        }
    }
}

/// What the sink ends up with for the source's objects `pdos`.
pub open spec fn sink_outcome(pdos: Seq<PowerDataObject>) -> SinkOutcome {
    outcome_from(pdos, planned_requests(pdos), 0)
}

proof fn lemma_outcome_skips_refused(pdos: Seq<PowerDataObject>, plan: Seq<PlannedRequest>, k: int)
    requires
        0 <= k <= plan.len(),
        forall|j: int|
            0 <= j < k ==> !usbpd_panics(pdos, #[trigger] plan[j].attempt) && !usbpd_accepts(
                pdos,
                plan[j].attempt,
            ),
    ensures
        outcome_from(pdos, plan, 0) == outcome_from(pdos, plan, k),
    decreases k,
{
    if k > 0 {
        lemma_outcome_skips_refused(pdos, plan, k - 1);
        assert(!usbpd_panics(pdos, plan[k - 1].attempt));
    }
}

/// Chooses the request for the source whose capabilities are `caps`: reads them as the
/// library's model and runs `negotiate`, with usbpd building each request, after testing
/// that usbpd would not panic on it. A request comes back exactly where `sink_outcome`
/// has one; it is the one usbpd builds for that attempt, asking for the object usbpd
/// picks for it; and the state is the one `sink_outcome` gives.
pub fn request(caps: &UsbpdCapabilities) -> (n: Negotiation<BuiltRequest>)
    ensures
        n.request is Some <==> sink_outcome(caps_pdos(*caps)).request is Some,
        n.request matches Some(b) ==> b.object_position == usbpd_pick(
            caps_pdos(*caps),
            sink_outcome(caps_pdos(*caps)).request->0,
        )->0 + 1,
        n.state == sink_outcome(caps_pdos(*caps)).state,
{
    let model = capabilities_model(caps);
    let ghost pdos = caps_pdos(*caps);
    let try_request = |a: RequestAttempt| -> (ans: Answer<BuiltRequest>)
        ensures
            ans is Abort <==> usbpd_panics(caps_pdos(*caps), a),
            ans is Accepted <==> !usbpd_panics(caps_pdos(*caps), a) && usbpd_accepts(
                caps_pdos(*caps),
                a,
            ),
            ans matches Answer::Accepted(b) ==> b.object_position == usbpd_pick(
                caps_pdos(*caps),
                a,
            )->0 + 1,
        {
            if usbpd_would_panic(&model, a) {
                Answer::Abort
            } else {
                match build_request(a, caps) {
                    Some(r) => Answer::Accepted(r),
                    None => Answer::Refused,
                }
            }
        };
    let n = negotiate(&model, try_request);
    proof {
        let plan = planned_requests(pdos);
        assert forall|j: int| 0 <= j <= plan.len() && #[trigger] refused_first(try_request, plan, j) implies
            outcome_from(pdos, plan, 0) == outcome_from(pdos, plan, j) by {
            assert forall|i: int| 0 <= i < j implies !usbpd_panics(pdos, #[trigger] plan[i].attempt)
                && !usbpd_accepts(pdos, plan[i].attempt) by {
                assert(try_request.ensures((plan[i].attempt,), Answer::<BuiltRequest>::Refused));
            }
            lemma_outcome_skips_refused(pdos, plan, j);
        }
        match n.request {
            Some(r) => {
                if exists|k: int|
                    #[trigger] first_accepted(try_request, plan, k, r) && n.state == Some(
                        plan[k].state_on_success,
                    ) {
                    let k = choose|k: int|
                        #[trigger] first_accepted(try_request, plan, k, r) && n.state == Some(
                            plan[k].state_on_success,
                        );
                    assert(refused_first(try_request, plan, k));
                    assert(try_request.ensures((plan[k].attempt,), Answer::Accepted(r)));
                } else {
                    assert(refused_first(try_request, plan, plan.len() as int));
                    assert(try_request.ensures((RequestAttempt::Safe5V,), Answer::Accepted(r)));
                }
            },
            None => {
                if exists|k: int| #[trigger] first_aborted(try_request, plan, k) && n.state is None {
                    let k = choose|k: int| #[trigger] first_aborted(try_request, plan, k) && n.state is None;
                    assert(refused_first(try_request, plan, k));
                    assert(try_request.ensures((plan[k].attempt,), Answer::<BuiltRequest>::Abort));
                } else {
                    assert(refused_first(try_request, plan, plan.len() as int));
                }
            },
        }
    }
    n
}

/// The voltage level that the UCPD peripheral reports on a CC line.
#[derive(Clone, Copy, PartialEq, Eq, Structural, Debug)]
pub enum CcVState {
    Lowest,
    Low,
    High,
    Highest,
}

/// How the USB-C cable is plugged in.
#[derive(Clone, Copy, PartialEq, Eq, Structural, Debug)]
pub enum CableOrientation {
    /// The source pulls up CC1.
    Normal,
    /// The source pulls up CC2.
    Flipped,
    /// Both CC lines are pulled up (a debug accessory).
    DebugAccessoryMode,
}

/// The CC line on which PD messages are exchanged.
#[derive(Clone, Copy, PartialEq, Eq, Structural, Debug)]
pub enum CcSel {
    CC1,
    CC2,
}

/// What to do after reading the CC lines while waiting for a source to attach.
#[derive(Clone, Copy, PartialEq, Eq, Structural, Debug)]
pub enum AttachStep {
    /// Nothing is attached: wait until the CC lines change, then read them again.
    WaitForChange,
    /// Something is attached: wait for the lines to stay unchanged for the debounce time.
    Debounce,
}

/// No source is attached while both CC lines are at their lowest level.
pub fn is_detached(cc1: CcVState, cc2: CcVState) -> (d: bool)
    ensures
        d == (cc1 == CcVState::Lowest && cc2 == CcVState::Lowest),
{
    cc1 == CcVState::Lowest && cc2 == CcVState::Lowest
}

/// The step after reading the CC lines while waiting for a source.
pub fn attach_step(cc1: CcVState, cc2: CcVState) -> (step: AttachStep)
    ensures
        step == (if cc1 == CcVState::Lowest && cc2 == CcVState::Lowest {
            AttachStep::WaitForChange
        } else {
            AttachStep::Debounce
        }),
{
    if is_detached(cc1, cc2) {
        AttachStep::WaitForChange
    } else {
        AttachStep::Debounce
    }
}

/// The orientation that stable CC line levels show: CC2 at its lowest level means the
/// source is on CC1, else CC1 at its lowest means it is on CC2, else both are pulled up.
pub fn cable_orientation(cc1: CcVState, cc2: CcVState) -> (o: CableOrientation)
    ensures
        o == (if cc2 == CcVState::Lowest {
            CableOrientation::Normal
        } else if cc1 == CcVState::Lowest {
            CableOrientation::Flipped
        } else {
            CableOrientation::DebugAccessoryMode
        }),
{
    match (cc1, cc2) {
        (_, CcVState::Lowest) => CableOrientation::Normal,
        (CcVState::Lowest, _) => CableOrientation::Flipped,
        _ => CableOrientation::DebugAccessoryMode,
    }
}

/// The outcome of debouncing attached CC lines read as `cc1` and `cc2`: `None` where they
/// changed within the debounce time (detection starts over), else the orientation.
pub fn after_debounce(cc1: CcVState, cc2: CcVState, changed: bool) -> (o: Option<CableOrientation>)
    ensures
        changed ==> o is None,
        !changed ==> o == Some(
            if cc2 == CcVState::Lowest {
                CableOrientation::Normal
            } else if cc1 == CcVState::Lowest {
                CableOrientation::Flipped
            } else {
                CableOrientation::DebugAccessoryMode
            },
        ),
{
    if changed {
        None
    } else {
        Some(cable_orientation(cc1, cc2))
    }
}

/// The CC line to talk PD on: CC1 for a normal plug, CC2 for a flipped one, and none for a
/// debug accessory, with which no PD communication takes place.
pub fn cc_selection(orientation: CableOrientation) -> (sel: Option<CcSel>)
    ensures
        sel == (match orientation {
            CableOrientation::Normal => Some(CcSel::CC1),
            CableOrientation::Flipped => Some(CcSel::CC2),
            CableOrientation::DebugAccessoryMode => None,
        }),
{
    match orientation {
        CableOrientation::Normal => Some(CcSel::CC1),
        CableOrientation::Flipped => Some(CcSel::CC2),
        CableOrientation::DebugAccessoryMode => None,
    }
}

/// A receive error of the UCPD peripheral.
#[derive(Clone, Copy, PartialEq, Eq, Structural, Debug)]
pub enum UcpdRxError {
    Crc,
    Overrun,
    HardReset,
}

/// A transmit error of the UCPD peripheral.
#[derive(Clone, Copy, PartialEq, Eq, Structural, Debug)]
pub enum UcpdTxError {
    Discarded,
    HardReset,
}

/// A receive error as the PD protocol layer sees it.
#[derive(Clone, Copy, PartialEq, Eq, Structural, Debug)]
pub enum DriverRxError {
    Discarded,
    HardReset,
}

/// A transmit error as the PD protocol layer sees it.
#[derive(Clone, Copy, PartialEq, Eq, Structural, Debug)]
pub enum DriverTxError {
    Discarded,
    HardReset,
}

/// A corrupted or overrun message is discarded; a hard reset stays a hard reset.
pub fn driver_rx_error(err: UcpdRxError) -> (e: DriverRxError)
    ensures
        e == (match err {
            UcpdRxError::HardReset => DriverRxError::HardReset,
            _ => DriverRxError::Discarded,
        }),
{
    match err {
        UcpdRxError::Crc | UcpdRxError::Overrun => DriverRxError::Discarded,
        UcpdRxError::HardReset => DriverRxError::HardReset,
    }
}

/// A discarded transmission stays discarded; a hard reset stays a hard reset.
pub fn driver_tx_error(err: UcpdTxError) -> (e: DriverTxError)
    ensures
        e == (match err {
            UcpdTxError::Discarded => DriverTxError::Discarded,
            UcpdTxError::HardReset => DriverTxError::HardReset,
        }),
{
    match err {
        UcpdTxError::Discarded => DriverTxError::Discarded,
        UcpdTxError::HardReset => DriverTxError::HardReset,
    }
}

} // verus!
