use firmware::control::{
    menu_step, outcome_beeps, reflow_supply, startup_beep, Beep, Button, CurrentBudget,
    MenuStep, ReflowAction, ReflowController, ReflowOutcome, ReflowStage, ReflowSupply,
};
use firmware::pd::{NegotiatedPdPowerLimits, State};
use firmware::profiles::sn42bi58;

#[test]
fn menu_wraps_around() {
    assert_eq!(menu_step(0, 2, Button::Left), MenuStep::Highlight(1));
    assert_eq!(menu_step(1, 2, Button::Right), MenuStep::Highlight(0));
    assert_eq!(menu_step(0, 2, Button::Right), MenuStep::Highlight(1));
    assert_eq!(menu_step(1, 2, Button::Middle), MenuStep::Start(1));
    assert_eq!(menu_step(0, 1, Button::Left), MenuStep::Highlight(0));
}

#[test]
fn left_then_right_returns() {
    for count in 1..6usize {
        for sel in 0..count {
            if let MenuStep::Highlight(l) = menu_step(sel, count, Button::Left) {
                assert_eq!(menu_step(l, count, Button::Right), MenuStep::Highlight(sel));
            } else {
                panic!("left must move the highlight");
            }
        }
    }
}

#[test]
fn supply_from_pd_state() {
    let limits = NegotiatedPdPowerLimits { voltage_mv: 20000, max_current_ma: 5000 };
    assert_eq!(
        reflow_supply(State::Good(limits)),
        Some(ReflowSupply { current: CurrentBudget::Negotiated(5000), voltage_mv: Some(20000) })
    );
    assert_eq!(
        reflow_supply(State::NotAttached),
        Some(ReflowSupply { current: CurrentBudget::AssumedDc, voltage_mv: None })
    );
    assert_eq!(reflow_supply(State::Error), None);
}

#[test]
fn controller_redraws_every_fifth_tick_then_cools() {
    let profile = sn42bi58();
    let mut c = ReflowController::new();
    for tick in 0..12u64 {
        match c.heating_tick(&profile, tick / 10) {
            ReflowAction::Control { status, redraw } => {
                assert_eq!(redraw, tick % 5 == 0);
                assert_eq!(status.total_time_left as u64, 180 - tick / 10);
            }
            other => panic!("unexpected action {:?}", other),
        }
    }
    assert_eq!(c.stage, ReflowStage::Heating { refresh_counter: 2 });
    assert_eq!(c.heating_tick(&profile, 181), ReflowAction::StartCooling);
    assert_eq!(c.stage, ReflowStage::Cooling);
    assert_eq!(c.cooling_tick(false), ReflowAction::KeepCooling);
    assert_eq!(c.stage, ReflowStage::Cooling);
    assert_eq!(c.cooling_tick(true), ReflowAction::Finished);
    assert_eq!(c.stage, ReflowStage::Done);
}

#[test]
fn elapsed_seconds_are_read_modulo_2_pow_16() {
    let profile = sn42bi58();
    let mut c = ReflowController::new();
    match c.heating_tick(&profile, 65536 + 100) {
        ReflowAction::Control { status, .. } => assert_eq!(status.total_time_left, 80),
        other => panic!("unexpected action {:?}", other),
    }
}

#[test]
fn beeps_for_outcomes() {
    assert_eq!(startup_beep(), Beep { on_ms: 500, off_ms: 0 });
    assert_eq!(outcome_beeps(ReflowOutcome::Completed), vec![Beep { on_ms: 500, off_ms: 0 }]);
    assert_eq!(outcome_beeps(ReflowOutcome::Cancelled), vec![Beep { on_ms: 300, off_ms: 0 }]);
    assert_eq!(outcome_beeps(ReflowOutcome::Failed), vec![Beep { on_ms: 200, off_ms: 100 }; 4]);
}
