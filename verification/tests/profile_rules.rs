use flair_bloom::key_id::{KeyId, MouseButton};
use flair_bloom::profile::{
    Advanced, BurstMode, BurstRule, Hotkeys, Profile, ProfileError, ProfileMeta,
    CURRENT_SCHEMA_VERSION, MAX_INTERVAL_MS, MAX_RULES, MIN_INTERVAL_MS,
};

fn make_profile(rules: Vec<BurstRule>) -> Profile {
    Profile {
        schema_version: CURRENT_SCHEMA_VERSION,
        meta: ProfileMeta {
            name: "t".into(),
            created_at: 0,
            updated_at: 0,
            app_version: "0".into(),
        },
        rules,
        hotkeys: Hotkeys::default(),
        advanced: Advanced::default(),
    }
}

fn rule(id: &str, mode: BurstMode, trigger: KeyId, target: KeyId, interval: u32) -> BurstRule {
    BurstRule {
        id: id.into(),
        enabled: true,
        trigger_key: trigger,
        target_key: target,
        mode,
        stop_key: None,
        interval_ms: interval,
        group: None,
    }
}

fn kbd(vk: u32) -> KeyId {
    KeyId::Keyboard(vk)
}

#[test]
fn validate_accepts_empty_profile() {
    assert!(make_profile(vec![]).validate().is_ok());
}

#[test]
fn validate_accepts_interval_at_lower_bound() {
    let p = make_profile(vec![rule(
        "r",
        BurstMode::Hold,
        kbd(0x41),
        kbd(0x42),
        MIN_INTERVAL_MS,
    )]);
    assert!(p.validate().is_ok());
}

#[test]
fn validate_accepts_interval_at_upper_bound() {
    let p = make_profile(vec![rule(
        "r",
        BurstMode::Hold,
        kbd(0x41),
        kbd(0x42),
        MAX_INTERVAL_MS,
    )]);
    assert!(p.validate().is_ok());
}

#[test]
fn validate_rejects_interval_below_minimum() {
    let p = make_profile(vec![rule("r", BurstMode::Hold, kbd(0x41), kbd(0x42), 0)]);
    assert!(matches!(
        p.validate(),
        Err(ProfileError::InvalidInterval(0))
    ));
}

#[test]
fn validate_rejects_interval_above_maximum() {
    let p = make_profile(vec![rule(
        "r",
        BurstMode::Hold,
        kbd(0x41),
        kbd(0x42),
        MAX_INTERVAL_MS + 1,
    )]);
    assert!(matches!(
        p.validate(),
        Err(ProfileError::InvalidInterval(i)) if i == MAX_INTERVAL_MS + 1
    ));
}

#[test]
fn validate_rejects_too_many_rules() {
    let rules = (0..=MAX_RULES)
        .map(|i| rule(&format!("r{i}"), BurstMode::Hold, kbd(0x41), kbd(0x42), 10))
        .collect();
    assert!(matches!(
        make_profile(rules).validate(),
        Err(ProfileError::TooManyRules)
    ));
}

#[test]
fn validate_accepts_max_rules() {
    let rules = (0..MAX_RULES)
        .map(|i| rule(&format!("r{i}"), BurstMode::Hold, kbd(0x41), kbd(0x42), 10))
        .collect();
    assert!(make_profile(rules).validate().is_ok());
}

#[test]
fn validate_default_mode_allows_toggle_target_equals_trigger() {
    let p = make_profile(vec![rule("t", BurstMode::Toggle, kbd(0x46), kbd(0x46), 10)]);
    assert!(p.validate().is_ok());
}

#[test]
fn validate_reports_the_first_bad_interval() {
    let p = make_profile(vec![
        rule("a", BurstMode::Hold, kbd(0x41), kbd(0x42), 10),
        rule("b", BurstMode::Hold, kbd(0x41), kbd(0x42), MAX_INTERVAL_MS + 7),
        rule("c", BurstMode::Hold, kbd(0x41), kbd(0x42), 0),
    ]);
    assert_eq!(p.validate(), Err(ProfileError::InvalidInterval(MAX_INTERVAL_MS + 7)));
}

#[test]
fn validate_counts_rules_before_intervals() {
    let rules = (0..=MAX_RULES)
        .map(|i| rule(&format!("r{i}"), BurstMode::Hold, kbd(0x41), kbd(0x42), 0))
        .collect();
    assert_eq!(make_profile(rules).validate(), Err(ProfileError::TooManyRules));
}

#[test]
fn validate_ignores_keys_and_modes() {
    let mouse = KeyId::Mouse(MouseButton::X2);
    let a = make_profile(vec![rule("a", BurstMode::Toggle, mouse, mouse, 10)]);
    let b = make_profile(vec![rule("b", BurstMode::Hold, kbd(1), kbd(2), 10)]);
    assert_eq!(a.validate(), b.validate());
}

#[test]
fn dd_mode_rejects_toggle_target_equal_to_trigger() {
    let p = make_profile(vec![rule("t", BurstMode::Toggle, kbd(0x46), kbd(0x46), 10)]);
    assert_eq!(p.validate_with(true), Err(ProfileError::ToggleTargetOverlap));
    assert_eq!(p.validate_with(false), Ok(()));
}

#[test]
fn dd_mode_rejects_toggle_target_equal_to_stop_key() {
    let mut r = rule("t", BurstMode::Toggle, kbd(0x41), kbd(0x42), 10);
    r.stop_key = Some(kbd(0x42));
    let p = make_profile(vec![r]);
    assert_eq!(p.validate_with(true), Err(ProfileError::ToggleTargetOverlap));
}

#[test]
fn dd_mode_allows_hold_rules_and_distinct_toggles() {
    let mut t = rule("t", BurstMode::Toggle, kbd(0x41), kbd(0x42), 10);
    t.stop_key = Some(kbd(0x43));
    let p = make_profile(vec![
        rule("h", BurstMode::Hold, kbd(0x46), kbd(0x46), 10),
        t,
    ]);
    assert_eq!(p.validate_with(true), Ok(()));
}

#[test]
fn dd_mode_reports_rule_faults_in_order() {
    let p = make_profile(vec![
        rule("t", BurstMode::Toggle, kbd(0x46), kbd(0x46), 10),
        rule("r", BurstMode::Hold, kbd(0x41), kbd(0x42), 0),
    ]);
    assert_eq!(p.validate_with(true), Err(ProfileError::ToggleTargetOverlap));
    assert_eq!(p.validate_with(false), Err(ProfileError::InvalidInterval(0)));
}
