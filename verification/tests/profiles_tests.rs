use firmware::profiles::{profile_names, profiles, sn42bi58, sn64bi35ag1, ReflowPhaseName};

#[test]
fn builtin_profiles_last_three_minutes() {
    assert_eq!(sn42bi58().total_duration(), 180);
    assert_eq!(sn64bi35ag1().total_duration(), 180);
}

#[test]
fn builtin_profiles_are_offered_in_order() {
    let all = profiles();
    assert_eq!(all.len(), 2);
    assert_eq!(all[0].alloy, "Sn42Bi58");
    assert_eq!(all[1].alloy, "Sn64Bi35Ag1");
    assert_eq!(profile_names(&all), vec!["Sn42Bi58", "Sn64Bi35Ag1"]);
    assert_eq!(all[1].phases[2].end_temp, 185);
}

#[test]
fn status_at_start_is_first_phase_from_initial_temperature() {
    let p = sn42bi58();
    let s = p.get_status(0).unwrap();
    assert_eq!(s.phase_name, ReflowPhaseName::Preheat);
    assert_eq!(s.phase_index, 0);
    assert_eq!(s.start_temp, None);
    assert_eq!(s.end_temp, 120);
    assert_eq!(s.elapsed_in_phase, 0);
    assert_eq!(s.phase_duration_secs, 90);
    assert_eq!(s.time_left_in_phase, 90);
    assert_eq!(s.total_time_left, 180);
}

#[test]
fn status_in_soak_phase() {
    let p = sn42bi58();
    let s = p.get_status(100).unwrap();
    assert_eq!(s.phase_name, ReflowPhaseName::Soak);
    assert_eq!(s.phase_index, 1);
    assert_eq!(s.start_temp, Some(120));
    assert_eq!(s.end_temp, 138);
    assert_eq!(s.elapsed_in_phase, 10);
    assert_eq!(s.time_left_in_phase, 50);
    assert_eq!(s.total_time_left, 80);
}

#[test]
fn phase_end_second_still_belongs_to_the_phase() {
    let p = sn42bi58();
    let s = p.get_status(90).unwrap();
    assert_eq!(s.phase_name, ReflowPhaseName::Preheat);
    assert_eq!(s.elapsed_in_phase, 90);
    assert_eq!(s.time_left_in_phase, 0);
    let t = p.get_status(91).unwrap();
    assert_eq!(t.phase_name, ReflowPhaseName::Soak);
    assert_eq!(t.start_temp, Some(120));
    assert_eq!(t.elapsed_in_phase, 1);
}

#[test]
fn status_ends_after_last_second() {
    let p = sn64bi35ag1();
    let s = p.get_status(180).unwrap();
    assert_eq!(s.phase_name, ReflowPhaseName::Reflow);
    assert_eq!(s.total_time_left, 0);
    assert_eq!(s.start_temp, Some(150));
    assert!(p.get_status(181).is_none());
    assert!(p.get_status(u16::MAX).is_none());
}

#[test]
fn phase_start_temperatures_chain() {
    let p = sn64bi35ag1();
    assert_eq!(p.phase_start_temp(0), None);
    assert_eq!(p.phase_start_temp(1), Some(130));
    assert_eq!(p.phase_start_temp(2), Some(150));
    assert_eq!(p.phase_start_temp(3), Some(185));
}

#[test]
fn remaining_time_counts_down_by_one() {
    let p = sn42bi58();
    for e in 0..180u16 {
        let a = p.get_status(e).unwrap();
        let b = p.get_status(e + 1).unwrap();
        assert_eq!(a.total_time_left, b.total_time_left + 1);
        assert!(a.phase_index <= b.phase_index);
        assert_eq!(a.elapsed_in_phase + a.time_left_in_phase, a.phase_duration_secs);
    }
}
