use rog_core::anime::{ActionLoader, AnimTime, Fade};
use rog_core::anime_config::{AnimeConfig, AnimeConfigV341, AnimeConfigV352, ConfigSource, StoreAction};

fn pause(ms: u32) -> ActionLoader {
    ActionLoader::Pause(ms)
}

fn is_pause(a: &ActionLoader, ms: u32) -> bool {
    matches!(a, ActionLoader::Pause(x) if *x == ms)
}

fn current(brightness: i64) -> AnimeConfig {
    AnimeConfig {
        system: vec![pause(1)],
        boot: vec![],
        wake: vec![],
        shutdown: vec![],
        brightness,
        awake_enabled: false,
        boot_anim_enabled: true,
    }
}

fn load_current(c: AnimeConfig) -> (AnimeConfig, StoreAction) {
    AnimeConfig::load(ConfigSource::Text { current: Some(c), v352: None, v341: None })
}

#[test]
fn brightness_is_clamped_on_load() {
    assert_eq!(load_current(current(-250)).0.brightness, 0);
    assert_eq!(load_current(current(1500)).0.brightness, 1000);
    let (c, act) = load_current(current(420));
    assert_eq!(c.brightness, 420);
    assert_eq!(act, StoreAction::Keep);
    assert!(!c.awake_enabled);
    assert!(is_pause(&c.system[0], 1));
}

#[test]
fn oldest_schema_migrates_and_reloads_unchanged() {
    let prior = AnimeConfigV341 { system: None, boot: Some(pause(5)), suspend: Some(pause(6)), shutdown: None };
    let (c, act) = AnimeConfig::load(ConfigSource::Text { current: None, v352: None, v341: Some(prior) });
    assert_eq!(act, StoreAction::Write);
    assert!(c.system.is_empty());
    assert_eq!(c.boot.len(), 1);
    assert!(is_pause(&c.boot[0], 5));
    assert!(is_pause(&c.wake[0], 6));
    assert!(c.shutdown.is_empty());
    assert_eq!(c.brightness, 1000);
    assert!(c.awake_enabled && c.boot_anim_enabled);
    let (again, act2) = load_current(c);
    assert_eq!(act2, StoreAction::Keep);
    assert_eq!(again.boot.len(), 1);
    assert!(is_pause(&again.wake[0], 6));
    assert_eq!(again.brightness, 1000);
}

#[test]
fn middle_schema_is_preferred_over_oldest() {
    let mid = AnimeConfigV352 { system: vec![pause(1), pause(2)], boot: vec![], wake: vec![], shutdown: vec![], brightness: 300 };
    let prior = AnimeConfigV341 { system: None, boot: None, suspend: None, shutdown: None };
    let (c, act) = AnimeConfig::load(ConfigSource::Text { current: None, v352: Some(mid), v341: Some(prior) });
    assert_eq!(act, StoreAction::Write);
    assert_eq!(c.system.len(), 2);
    assert_eq!(c.brightness, 1000);
}

fn assert_default(c: &AnimeConfig) {
    assert!(c.system.is_empty());
    assert_eq!(c.boot.len(), 1);
    assert_eq!(c.wake.len(), 1);
    assert_eq!(c.shutdown.len(), 1);
    match &c.shutdown[0] {
        ActionLoader::ImageAnimation { file, time, translation, .. } => {
            assert_eq!(file, "/usr/share/asusd/anime/custom/sonic-wait.gif");
            assert_eq!(*time, AnimTime::Infinite);
            assert_eq!((translation.x, translation.y), (3000, 2000));
        }
        _ => panic!("shutdown action is not an image animation"),
    }
    match &c.boot[0] {
        ActionLoader::ImageAnimation { file, time, scale, angle, .. } => {
            assert_eq!(file, "/usr/share/asusd/anime/custom/sonic-run.gif");
            assert_eq!(*time, AnimTime::Fade(Fade::new(2000, Some(2000), 2000)));
            assert_eq!((*scale, *angle), (900, 650));
        }
        _ => panic!("boot action is not an image animation"),
    }
    assert_eq!(c.brightness, 1000);
}

#[test]
fn undecodable_config_is_set_aside_for_default() {
    let (c, act) = AnimeConfig::load(ConfigSource::Text { current: None, v352: None, v341: None });
    assert_eq!(act, StoreAction::RenameOldThenWrite);
    assert_default(&c);
}

#[test]
fn empty_or_unreadable_config_writes_default() {
    let (c, act) = AnimeConfig::load(ConfigSource::Empty);
    assert_eq!(act, StoreAction::Write);
    assert_default(&c);
    let (c2, act2) = AnimeConfig::load(ConfigSource::Unreadable);
    assert_eq!(act2, StoreAction::Write);
    assert_default(&c2);
}

#[test]
fn default_impl_is_empty_at_full_brightness() {
    let c = AnimeConfig::default();
    assert!(c.system.is_empty() && c.boot.is_empty() && c.wake.is_empty() && c.shutdown.is_empty());
    assert_eq!(c.brightness, 1000);
    assert!(c.awake_enabled && c.boot_anim_enabled);
}

#[test]
fn clamp_leaves_lists_alone() {
    let mut c = current(2000);
    AnimeConfig::clamp_config_brightness(&mut c);
    assert_eq!(c.brightness, 1000);
    assert_eq!(c.system.len(), 1);
}
