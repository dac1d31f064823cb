use firmware::pd::{NegotiatedPdPowerLimits, State};
use firmware::ui::{
    elapsed_text, format_duty_cycle, format_secs, format_temp, format_voltage, pd_state_text,
    progress_layout, remaining_text, split_tenths, ProgressLayout, TemperatureFormatting,
};

#[test]
fn tenths_split() {
    assert_eq!(split_tenths(1234), (false, 123, 4));
    assert_eq!(split_tenths(0), (false, 0, 0));
    assert_eq!(split_tenths(-15), (true, 1, 5));
    assert_eq!(split_tenths(-5), (true, 0, 5));
    assert_eq!(split_tenths(i32::MIN), (true, 214748364, 8));
}

#[test]
fn temperature_texts() {
    assert_eq!(format_temp(1234, TemperatureFormatting::Target), "Tar: 123.4°C");
    assert_eq!(format_temp(250, TemperatureFormatting::Actual), "Act: 25.0°C");
    assert_eq!(format_temp(-15, TemperatureFormatting::Unlabelled), "-1.5°C");
    assert_eq!(format_temp(-5, TemperatureFormatting::Unlabelled), "-0.5°C");
    assert_eq!(format_temp(0, TemperatureFormatting::Unlabelled), "0.0°C");
}

#[test]
fn voltage_and_duty_texts() {
    assert_eq!(format_voltage(200), "VCC: 20.0V");
    assert_eq!(format_voltage(53), "VCC: 5.3V");
    assert_eq!(format_voltage(-5), "VCC: -0.5V");
    assert_eq!(format_voltage(-99), "VCC: -9.9V");
    assert_eq!(format_duty_cycle(0), "Duty Cycle: 0%");
    assert_eq!(format_duty_cycle(255), "Duty Cycle: 255%");
}

#[test]
fn clock_texts() {
    assert_eq!(format_secs(0), "00:00");
    assert_eq!(format_secs(187), "03:07");
    assert_eq!(format_secs(6000), "100:00");
    assert_eq!(elapsed_text(90), "Elap: 01:30");
    assert_eq!(remaining_text(59), "Rem: 00:59");
}

#[test]
fn pd_state_lines() {
    let limits = NegotiatedPdPowerLimits { voltage_mv: 20000, max_current_ma: 5000 };
    assert_eq!(pd_state_text(&State::Good(limits)), "PD State: Good");
    assert_eq!(pd_state_text(&State::NotAttached), "PD State: N/A");
    assert_eq!(pd_state_text(&State::Error), "PD State: Error");
}

#[test]
fn progress_screen_layout() {
    assert_eq!(
        progress_layout(128, 64, 13, 30, 150),
        Some(ProgressLayout {
            text_area_y: 18,
            text_area_width: 128,
            text_area_height: 46,
            border_y: 52,
            border_width: 128,
            border_height: 12,
            bar_x: 2,
            bar_y: 54,
            bar_track_width: 124,
            bar_height: 8,
            progress_denominator: 180,
        })
    );
    assert_eq!(progress_layout(128, 17, 13, 0, 0), None);
    assert_eq!(progress_layout(3, 64, 13, 0, 0), None);
    assert_eq!(progress_layout(128, 64, 13, 65535, 1), None);
    assert_eq!(progress_layout(128, 64, 13, 65536, 1).unwrap().progress_denominator, 1);
}
