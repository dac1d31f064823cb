use firmware::pd::{
    best_offer_index, min_voltage, negotiate, plan_requests, Answer, AvsSupply, FixedSupply,
    NegotiatedPdPowerLimits, PlannedRequest, PowerDataObject, PpsSupply, RequestAttempt,
    SourceCapabilities, State, SupplyKind,
};

fn fixed(voltage_mv: u32, max_current_ma: u32) -> PowerDataObject {
    PowerDataObject::FixedSupply(FixedSupply { voltage_mv, max_current_ma })
}

fn pps(min_voltage_mv: u32, max_voltage_mv: u32, max_current_ma: u32) -> PowerDataObject {
    PowerDataObject::Pps(PpsSupply { min_voltage_mv, max_voltage_mv, max_current_ma })
}

fn avs(min_voltage_mv: u32, max_voltage_mv: u32, pd_power_uw: u32) -> PowerDataObject {
    PowerDataObject::Avs(AvsSupply { min_voltage_mv, max_voltage_mv, pd_power_uw })
}

fn good(voltage_mv: u32, max_current_ma: u32) -> State {
    State::Good(NegotiatedPdPowerLimits { voltage_mv, max_current_ma })
}

#[test]
fn min_voltage_picks_smaller() {
    assert_eq!(min_voltage(28000, 22000), 22000);
    assert_eq!(min_voltage(9000, 22000), 9000);
    assert_eq!(min_voltage(22000, 22000), 22000);
}

#[test]
fn fixed_supply_must_be_between_12_and_22_whole_volts() {
    let caps = SourceCapabilities {
        pdos: vec![fixed(5000, 3000), fixed(11999, 5000), fixed(22999, 1000), fixed(23000, 5000)],
    };
    // 22999 mV reads as 22 whole volts and is accepted; 23000 mV and 11999 mV are not.
    assert_eq!(best_offer_index(&caps, SupplyKind::Fixed), Some(2));
}

#[test]
fn equally_ranked_supplies_the_last_one_wins() {
    let caps = SourceCapabilities {
        pdos: vec![fixed(5000, 3000), fixed(15000, 4000), fixed(20000, 3000), fixed(12000, 1000)],
    };
    assert_eq!(best_offer_index(&caps, SupplyKind::Fixed), Some(2));
}

#[test]
fn pps_only_in_spr_positions_and_avs_only_in_epr_positions() {
    let mut pdos = vec![fixed(5000, 3000)];
    for _ in 0..5 {
        pdos.push(PowerDataObject::Unknown);
    }
    pdos.push(pps(3300, 21000, 3000));
    pdos.push(avs(15000, 28000, 140_000_000));
    pdos.push(pps(3300, 11000, 5000));
    let caps = SourceCapabilities { pdos };
    assert_eq!(best_offer_index(&caps, SupplyKind::SprPps), Some(6));
    assert_eq!(best_offer_index(&caps, SupplyKind::EprAvs), Some(7));
    assert_eq!(best_offer_index(&caps, SupplyKind::Fixed), None);
}

#[test]
fn avs_with_too_high_minimum_is_not_considered() {
    let mut pdos = vec![fixed(5000, 3000); 7];
    pdos.push(avs(23000, 48000, 240_000_000));
    let caps = SourceCapabilities { pdos };
    assert_eq!(best_offer_index(&caps, SupplyKind::EprAvs), None);
}

#[test]
fn plan_prefers_avs_then_pps_then_fixed() {
    let mut pdos = vec![fixed(5000, 3000), fixed(20000, 3000), pps(3300, 21000, 3000)];
    for _ in 0..4 {
        pdos.push(PowerDataObject::Unknown);
    }
    pdos.push(avs(15000, 28000, 140_000_000));
    let caps = SourceCapabilities { pdos };
    let plan = plan_requests(&caps);
    assert_eq!(
        plan,
        vec![
            PlannedRequest {
                attempt: RequestAttempt::EprAvs { voltage_mv: 22000 },
                state_on_success: good(22000, 6363),
            },
            PlannedRequest {
                attempt: RequestAttempt::Pps { voltage_mv: 21000 },
                state_on_success: good(21000, 3000),
            },
            PlannedRequest {
                attempt: RequestAttempt::Fixed { voltage_mv: 20000 },
                state_on_success: good(20000, 3000),
            },
        ]
    );
}

#[test]
fn pps_below_fixed_voltage_is_not_planned() {
    let caps = SourceCapabilities { pdos: vec![fixed(20000, 3000), pps(3300, 11000, 3000)] };
    let plan = plan_requests(&caps);
    assert_eq!(plan.len(), 1);
    assert_eq!(plan[0].attempt, RequestAttempt::Fixed { voltage_mv: 20000 });
}

#[test]
fn negotiate_takes_first_accepted_request() {
    let caps = SourceCapabilities { pdos: vec![fixed(20000, 3000), pps(3300, 21000, 3000)] };
    let n = negotiate(&caps, |a: RequestAttempt| match a {
        RequestAttempt::Pps { .. } => Answer::Refused,
        other => Answer::Accepted(other),
    });
    assert_eq!(n.request, Some(RequestAttempt::Fixed { voltage_mv: 20000 }));
    assert_eq!(n.state, Some(good(20000, 3000)));
}

#[test]
fn negotiate_falls_back_to_safe_5v_with_error_state() {
    let caps = SourceCapabilities { pdos: vec![fixed(5000, 3000), fixed(15000, 2000)] };
    let n = negotiate(&caps, |a: RequestAttempt| match a {
        RequestAttempt::Safe5V => Answer::Accepted(a),
        _ => Answer::Refused,
    });
    assert_eq!(n.request, Some(RequestAttempt::Safe5V));
    assert_eq!(n.state, Some(State::Error));
    let refused = negotiate(&caps, |_a: RequestAttempt| Answer::<RequestAttempt>::Refused);
    assert_eq!(refused.request, None);
    assert_eq!(refused.state, Some(State::Error));
}

#[test]
fn negotiate_without_fixed_supply_gives_nothing() {
    let caps = SourceCapabilities { pdos: vec![fixed(5000, 3000), pps(3300, 11000, 3000)] };
    let n = negotiate(&caps, |_a: RequestAttempt| Answer::<u8>::Refused);
    assert_eq!(n.request, None);
    assert_eq!(n.state, None);
    let m = negotiate(&caps, |a: RequestAttempt| Answer::Accepted(a));
    assert_eq!(m.request, Some(RequestAttempt::Pps { voltage_mv: 11000 }));
    assert_eq!(m.state, Some(good(11000, 3000)));
}

#[test]
fn negotiate_stops_at_a_request_that_cannot_be_built() {
    let caps = SourceCapabilities { pdos: vec![fixed(20000, 3000), pps(3300, 21000, 3000)] };
    let n = negotiate(&caps, |a: RequestAttempt| match a {
        RequestAttempt::Pps { .. } => Answer::Abort,
        other => Answer::Accepted(other),
    });
    assert_eq!(n.request, None);
    assert_eq!(n.state, None);
}
