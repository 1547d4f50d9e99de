use plantrig::schedule::{
    check_due, choose_stage, fallback_stage, plan_watering, scan_decision, timestamp, water_due,
    CheckData, PositionData, StageData,
};

fn stage(check_period: i64, water_period: i64, water_duration: i64) -> StageData {
    StageData {
        id: 1,
        stage: "young".to_owned(),
        first_stage: true,
        check_period,
        water_period,
        water_duration,
    }
}

fn check_at(ts: i64, watered: bool) -> CheckData {
    CheckData {
        id: 1,
        created_ts: ts,
        position_id: 1,
        image_id: 1,
        stage_id: 1,
        watered,
    }
}

#[test]
fn unchecked_position_is_due() {
    let cfg = stage(60, 3600, 2);
    assert!(check_due(1000, None, &cfg));
}

#[test]
fn fresh_record_is_not_due_until_the_period_elapses() {
    let cfg = stage(60, 3600, 2);
    let rec = check_at(1000, false);
    assert!(!check_due(1000, Some(&rec), &cfg));
    assert!(!check_due(1059, Some(&rec), &cfg));
    assert!(check_due(1060, Some(&rec), &cfg));
    assert!(check_due(2000, Some(&rec), &cfg));
}

#[test]
fn water_follows_the_same_law_against_its_period() {
    let cfg = stage(60, 3600, 2);
    assert!(water_due(1000, None, &cfg, false));
    let rec = check_at(1000, true);
    assert!(!water_due(1000, Some(&rec), &cfg, false));
    assert!(!water_due(4599, Some(&rec), &cfg, false));
    assert!(water_due(4600, Some(&rec), &cfg, false));
}

#[test]
fn forced_water_is_always_due() {
    let cfg = stage(60, 3600, 2);
    let rec = check_at(1000, true);
    assert!(water_due(1000, Some(&rec), &cfg, true));
    assert!(water_due(1001, Some(&rec), &cfg, true));
}

#[test]
fn first_scan_of_a_position_checks_and_forces_water() {
    // Position (10,20) with no prior check record.
    let position = PositionData { id: 7, active: true, x: 10, y: 20 };
    let cfg = stage(60, 3600, 2);
    let now = 50_000;

    let (do_check, force) = scan_decision(now, None, None);
    assert!(do_check && force);

    // The check ran and its record exists; no watered record yet, so the
    // watering runs at once, for the configured two seconds.
    let record = CheckData {
        id: 0,
        created_ts: now,
        position_id: position.id,
        image_id: 3,
        stage_id: cfg.id,
        watered: false,
    };
    assert!(!record.watered);
    let w = plan_watering(now, None, &cfg, force);
    assert_eq!(w, Some(2));
    let watered = CheckData { watered: true, ..record };
    assert!(watered.watered);
    assert_eq!(watered.created_ts, now);
}

#[test]
fn scan_skips_when_the_stage_is_unknown() {
    let rec = check_at(1000, false);
    assert_eq!(scan_decision(5000, Some(&rec), None), (false, false));
}

#[test]
fn scan_checks_again_only_after_the_period() {
    let cfg = stage(60, 3600, 2);
    let rec = check_at(1000, false);
    assert_eq!(scan_decision(1030, Some(&rec), Some(&cfg)), (false, false));
    assert_eq!(scan_decision(1060, Some(&rec), Some(&cfg)), (true, false));
}

#[test]
fn unknown_label_gets_the_fallback_configuration() {
    let cfg = fallback_stage(&"frost".to_owned());
    assert_eq!(cfg.stage, "frost");
    assert!(!cfg.first_stage);
    assert_eq!(cfg.check_period, 1000);
    assert_eq!(cfg.water_period, 1000);
    assert_eq!(cfg.water_duration, 1);
}

#[test]
fn choose_stage_prefers_the_stored_configuration() {
    let stored = stage(60, 3600, 2);
    let picked = choose_stage(Some(stored), &"young".to_owned());
    assert_eq!(picked.check_period, 60);

    let fallback = choose_stage(None, &"frost".to_owned());
    assert_eq!(fallback.stage, "frost");
    assert_eq!(fallback.water_duration, 1);
}

#[test]
fn timestamps_are_never_negative() {
    assert!(timestamp() >= 0);
}
