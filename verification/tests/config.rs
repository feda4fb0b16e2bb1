use scrobbler::config::{
    clamp_threshold, ScrobbleConfig, ScrobbleConfigUpdate, DEFAULT_THRESHOLD, MAX_THRESHOLD,
    MIN_THRESHOLD, THRESHOLD_SCALE,
};

fn no_change() -> ScrobbleConfigUpdate {
    ScrobbleConfigUpdate {
        threshold: None,
        enable_scrobble: None,
        enable_now_playing: None,
        enable_notifications: None,
    }
}

#[test]
fn fresh_settings_are_half_and_all_on() {
    let cfg = ScrobbleConfig::new();
    assert_eq!(cfg.threshold, 500_000);
    assert_eq!(DEFAULT_THRESHOLD, 500_000);
    assert!(cfg.enable_scrobble);
    assert!(cfg.enable_now_playing);
    assert!(cfg.enable_notifications);
}

#[test]
fn threshold_bounds_are_a_hundredth_and_one() {
    assert_eq!(THRESHOLD_SCALE, 1_000_000);
    assert_eq!(MIN_THRESHOLD, 10_000);
    assert_eq!(MAX_THRESHOLD, 1_000_000);
}

#[test]
fn threshold_is_clamped() {
    assert_eq!(clamp_threshold(1_500_000), 1_000_000);
    assert_eq!(clamp_threshold(0), 10_000);
    assert_eq!(clamp_threshold(9_999), 10_000);
    assert_eq!(clamp_threshold(10_000), 10_000);
    assert_eq!(clamp_threshold(333_333), 333_333);
    assert_eq!(clamp_threshold(1_000_000), 1_000_000);
    assert_eq!(clamp_threshold(1_000_001), 1_000_000);
    assert_eq!(clamp_threshold(u32::MAX), 1_000_000);
}

#[test]
fn an_update_of_the_threshold_is_stored_clamped() {
    let mut cfg = ScrobbleConfig::new();
    let mut update = no_change();
    update.threshold = Some(1_500_000);
    cfg.apply(&update);
    assert_eq!(cfg.threshold, 1_000_000);
    update.threshold = Some(0);
    cfg.apply(&update);
    assert_eq!(cfg.threshold, 10_000);
    update.threshold = Some(250_000);
    cfg.apply(&update);
    assert_eq!(cfg.threshold, 250_000);
    assert!(cfg.enable_scrobble && cfg.enable_now_playing && cfg.enable_notifications);
}

#[test]
fn an_update_changes_only_what_it_names() {
    let mut cfg = ScrobbleConfig::new();
    cfg.apply(&no_change());
    assert_eq!(cfg, ScrobbleConfig::new());
    let mut update = no_change();
    update.enable_now_playing = Some(false);
    cfg.apply(&update);
    assert_eq!(
        cfg,
        ScrobbleConfig {
            threshold: 500_000,
            enable_scrobble: true,
            enable_now_playing: false,
            enable_notifications: true,
        }
    );
    let all = ScrobbleConfigUpdate {
        threshold: Some(700_000),
        enable_scrobble: Some(false),
        enable_now_playing: Some(true),
        enable_notifications: Some(false),
    };
    cfg.apply(&all);
    assert_eq!(
        cfg,
        ScrobbleConfig {
            threshold: 700_000,
            enable_scrobble: false,
            enable_now_playing: true,
            enable_notifications: false,
        }
    );
}
