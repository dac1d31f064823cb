use firmware::pd::{
    AvsSupply, FixedSupply, NegotiatedPdPowerLimits, PowerDataObject as Pdo, PpsSupply, State,
};
struct ModelCaps {
    pdos: Vec<Pdo>,
}

use firmware::sink::{
    after_debounce, attach_step, cable_orientation, capabilities_model, cc_selection,
    driver_rx_error, driver_tx_error, is_detached, request, usbpd_would_panic, AttachStep, CableOrientation, CcSel, CcVState,
    DriverRxError, DriverTxError, UcpdRxError, UcpdTxError,
};
use usbpd::protocol_layer::message::data::source_capabilities::{
    Augmented, EprAdjustableVoltageSupply, FixedSupply as UsbFixed, PowerDataObject,
    SourceCapabilities, SprProgrammablePowerSupply,
};

fn usb_fixed(raw_50mv: u16, raw_10ma: u16) -> PowerDataObject {
    PowerDataObject::FixedSupply(
        UsbFixed::default().with_raw_voltage(raw_50mv).with_raw_max_current(raw_10ma),
    )
}

fn caps(pdos: Vec<PowerDataObject>) -> SourceCapabilities {
    let mut v: heapless::Vec<PowerDataObject, 16> = heapless::Vec::new();
    for p in pdos {
        v.push(p).unwrap();
    }
    SourceCapabilities::new_with_pdos(v)
}

fn good(voltage_mv: u32, max_current_ma: u32) -> Option<State> {
    Some(State::Good(NegotiatedPdPowerLimits { voltage_mv, max_current_ma }))
}

#[test]
fn request_highest_fixed_supply_within_limit() {
    let usb = caps(vec![usb_fixed(100, 300), usb_fixed(400, 300), usb_fixed(560, 500)]);
    let model = ModelCaps {
        pdos: vec![
            Pdo::FixedSupply(FixedSupply { voltage_mv: 5000, max_current_ma: 3000 }),
            Pdo::FixedSupply(FixedSupply { voltage_mv: 20000, max_current_ma: 3000 }),
            Pdo::FixedSupply(FixedSupply { voltage_mv: 28000, max_current_ma: 5000 }),
        ],
    };
    assert_eq!(capabilities_model(&usb).pdos, model.pdos);
    let n = request(&usb);
    assert!(n.request.is_some());
    assert_eq!(n.state, good(20000, 3000));
    let built = n.request.unwrap();
    assert_eq!(built.source.object_position(), 2);
    assert_eq!(built.object_position, 2);
}

#[test]
fn request_epr_avs_at_22_volts() {
    let mut pdos = vec![usb_fixed(100, 300), usb_fixed(400, 300)];
    let mut model_pdos = vec![
        Pdo::FixedSupply(FixedSupply { voltage_mv: 5000, max_current_ma: 3000 }),
        Pdo::FixedSupply(FixedSupply { voltage_mv: 20000, max_current_ma: 3000 }),
    ];
    for _ in 0..5 {
        pdos.push(PowerDataObject::FixedSupply(UsbFixed::default()));
        model_pdos.push(Pdo::FixedSupply(FixedSupply { voltage_mv: 0, max_current_ma: 0 }));
    }
    let avs = EprAdjustableVoltageSupply(0)
        .with_kind(0b11)
        .with_supply(0b01)
        .with_raw_max_voltage(280)
        .with_raw_min_voltage(150)
        .with_raw_pd_power(140);
    pdos.push(PowerDataObject::Augmented(Augmented::Epr(avs)));
    model_pdos.push(Pdo::Avs(AvsSupply {
        min_voltage_mv: 15000,
        max_voltage_mv: 28000,
        pd_power_uw: 140_000_000,
    }));
    let usb = caps(pdos);
    assert_eq!(capabilities_model(&usb).pdos, model_pdos);
    let n = request(&usb);
    assert_eq!(n.state, good(22000, 6363));
    let built = n.request.unwrap();
    assert_eq!(built.source.object_position(), 8);
    assert_eq!(built.object_position, 8);
}

#[test]
fn request_pps_above_fixed_voltage() {
    let pps = SprProgrammablePowerSupply::default()
        .with_raw_min_voltage(33)
        .with_raw_max_voltage(210)
        .with_raw_max_current(60);
    let usb = caps(vec![usb_fixed(100, 300), usb_fixed(400, 300), PowerDataObject::Augmented(Augmented::Spr(pps))]);
    let model = ModelCaps {
        pdos: vec![
            Pdo::FixedSupply(FixedSupply { voltage_mv: 5000, max_current_ma: 3000 }),
            Pdo::FixedSupply(FixedSupply { voltage_mv: 20000, max_current_ma: 3000 }),
            Pdo::Pps(PpsSupply { min_voltage_mv: 3300, max_voltage_mv: 21000, max_current_ma: 3000 }),
        ],
    };
    assert_eq!(capabilities_model(&usb).pdos, model.pdos);
    let n = request(&usb);
    assert_eq!(n.state, good(21000, 3000));
    let built = n.request.unwrap();
    assert_eq!(built.source.object_position(), 3);
    assert_eq!(built.object_position, 3);
}

#[test]
fn request_without_suitable_supply() {
    let usb = caps(vec![usb_fixed(100, 300)]);
    let model = ModelCaps {
        pdos: vec![Pdo::FixedSupply(FixedSupply { voltage_mv: 5000, max_current_ma: 3000 })],
    };
    assert_eq!(capabilities_model(&usb).pdos, model.pdos);
    let n = request(&usb);
    assert!(n.request.is_none());
    assert_eq!(n.state, None);
}

#[test]
fn detached_only_when_both_lines_lowest() {
    assert!(is_detached(CcVState::Lowest, CcVState::Lowest));
    assert!(!is_detached(CcVState::Lowest, CcVState::Low));
    assert_eq!(attach_step(CcVState::Lowest, CcVState::Lowest), AttachStep::WaitForChange);
    assert_eq!(attach_step(CcVState::High, CcVState::Lowest), AttachStep::Debounce);
}

#[test]
fn orientation_from_cc_lines() {
    assert_eq!(cable_orientation(CcVState::High, CcVState::Lowest), CableOrientation::Normal);
    assert_eq!(cable_orientation(CcVState::Lowest, CcVState::Highest), CableOrientation::Flipped);
    assert_eq!(cable_orientation(CcVState::Low, CcVState::High), CableOrientation::DebugAccessoryMode);
    assert_eq!(after_debounce(CcVState::High, CcVState::Lowest, true), None);
    assert_eq!(after_debounce(CcVState::Lowest, CcVState::Low, false), Some(CableOrientation::Flipped));
}

#[test]
fn cc_line_selection() {
    assert_eq!(cc_selection(CableOrientation::Normal), Some(CcSel::CC1));
    assert_eq!(cc_selection(CableOrientation::Flipped), Some(CcSel::CC2));
    assert_eq!(cc_selection(CableOrientation::DebugAccessoryMode), None);
}

#[test]
fn driver_errors_map() {
    assert_eq!(driver_rx_error(UcpdRxError::Crc), DriverRxError::Discarded);
    assert_eq!(driver_rx_error(UcpdRxError::Overrun), DriverRxError::Discarded);
    assert_eq!(driver_rx_error(UcpdRxError::HardReset), DriverRxError::HardReset);
    assert_eq!(driver_tx_error(UcpdTxError::Discarded), DriverTxError::Discarded);
    assert_eq!(driver_tx_error(UcpdTxError::HardReset), DriverTxError::HardReset);
}

#[test]
fn request_that_usbpd_cannot_build_gives_nothing() {
    // The only fixed supply in range sits at position 15, where usbpd cannot build a request.
    let mut pdos = vec![usb_fixed(100, 300)];
    for _ in 0..13 {
        pdos.push(usb_fixed(100, 100));
    }
    pdos.push(usb_fixed(400, 300));
    let usb = caps(pdos);
    let model = capabilities_model(&usb);
    assert_eq!(model.pdos[14], Pdo::FixedSupply(FixedSupply { voltage_mv: 20000, max_current_ma: 3000 }));
    assert!(usbpd_would_panic(&model, firmware::pd::RequestAttempt::Fixed { voltage_mv: 20000 }));
    let n = request(&usb);
    assert!(n.request.is_none());
    assert_eq!(n.state, None);
}

#[test]
fn request_fixed_15_volts() {
    let usb = caps(vec![usb_fixed(100, 300), usb_fixed(300, 300)]);
    let n = request(&usb);
    assert!(n.request.is_some());
    assert_eq!(n.state, good(15000, 3000));
    // The request asks for the 15 V supply at position 2, not for vSafe5V at position 1.
    let built = n.request.unwrap();
    assert_eq!(built.object_position, 2);
    assert_eq!(built.source.object_position(), 2);
}
