use rog_core::anime::{ActionData, ActionLoader, AnimTime, AnimeType, Fade, FrameSource, Vec2};
use rog_core::anime_config::AnimeConfig;
use rog_core::anime_engine::{fade_level_at, AnimeEngine, EngineState, Trigger};

fn faded(ms: u32, brightness: u32) -> ActionLoader {
    ActionLoader::ImageAnimation {
        file: "a.gif".to_string(),
        scale: 1000,
        angle: 0,
        translation: Vec2::new(0, 0),
        time: AnimTime::Fade(Fade::new(ms, Some(ms), ms)),
        brightness,
    }
}

fn config(boot: Vec<ActionLoader>, system: Vec<ActionLoader>, brightness: i64) -> AnimeConfig {
    AnimeConfig {
        system,
        boot,
        wake: vec![],
        shutdown: vec![ActionLoader::Pause(10)],
        brightness,
        awake_enabled: true,
        boot_anim_enabled: true,
    }
}

#[test]
fn fade_samples_follow_the_ramps() {
    let f = AnimTime::Fade(Fade::new(2000, Some(2000), 2000));
    assert_eq!(fade_level_at(f, 0, 0), 0);
    assert_eq!(fade_level_at(f, 0, 1000), 500);
    assert_eq!(fade_level_at(f, 0, 3000), 1000);
    assert_eq!(fade_level_at(f, 0, 5000), 500);
    assert_eq!(fade_level_at(f, 0, 6000), 0);
    assert_eq!(fade_level_at(AnimTime::Infinite, 0, 99), 1000);
    let unset = AnimTime::Fade(Fade::new(0, None, 1000));
    assert_eq!(fade_level_at(unset, 400, 300), 1000);
    assert_eq!(fade_level_at(unset, 400, 900), 500);
}

#[test]
fn engine_plays_fade_then_stops() {
    let cfg = config(vec![faded(2000, 1000)], vec![], 1000);
    let mut e = AnimeEngine::new(&cfg, AnimeType::GA402);
    assert_eq!(e.state, EngineState::Idle);
    e.trigger(Trigger::Boot);
    assert_eq!(e.state, EngineState::Playing { list: Trigger::Boot, index: 0, elapsed: 0 });
    e.tick(1000, 0);
    assert_eq!(e.frame_brightness(0), Some(500));
    e.tick(2000, 0);
    assert_eq!(e.frame_brightness(0), Some(1000));
    e.tick(2000, 0);
    assert_eq!(e.frame_brightness(0), Some(500));
    e.tick(1000, 0);
    assert_eq!(e.state, EngineState::Idle);
    assert_eq!(e.frame_brightness(0), None);
}

#[test]
fn global_and_action_brightness_multiply() {
    let cfg = config(vec![faded(2000, 500)], vec![], 400);
    let mut e = AnimeEngine::new(&cfg, AnimeType::GA401);
    e.trigger(Trigger::Boot);
    e.tick(3000, 0);
    assert_eq!(e.frame_brightness(0), Some(200));
}

#[test]
fn system_list_advances_and_wraps() {
    let cfg = config(vec![], vec![faded(10, 1000), ActionLoader::Pause(50)], 1000);
    let mut e = AnimeEngine::new(&cfg, AnimeType::GA401);
    e.trigger(Trigger::System);
    e.tick(30, 0);
    assert_eq!(e.state, EngineState::Playing { list: Trigger::System, index: 1, elapsed: 0 });
    e.tick(50, 0);
    assert_eq!(e.state, EngineState::Playing { list: Trigger::System, index: 0, elapsed: 0 });
}

#[test]
fn count_and_infinite_times() {
    let counted = ActionLoader::AsusAnimation { file: "b.gif".to_string(), time: AnimTime::Count(2), brightness: 1000 };
    let forever = ActionLoader::AsusAnimation { file: "c.gif".to_string(), time: AnimTime::Infinite, brightness: 1000 };
    let cfg = config(vec![counted, forever], vec![], 1000);
    let mut e = AnimeEngine::new(&cfg, AnimeType::GA401);
    e.trigger(Trigger::Boot);
    e.tick(150, 100);
    assert_eq!(e.state, EngineState::Playing { list: Trigger::Boot, index: 0, elapsed: 150 });
    e.tick(50, 100);
    assert_eq!(e.state, EngineState::Playing { list: Trigger::Boot, index: 1, elapsed: 0 });
    e.tick(1_000_000, 100);
    assert_eq!(e.state, EngineState::Playing { list: Trigger::Boot, index: 1, elapsed: 1_000_000 });
}

#[test]
fn triggers_preempt_and_respect_flags() {
    let mut cfg = config(vec![faded(2000, 1000)], vec![], 1000);
    cfg.boot_anim_enabled = false;
    let mut e = AnimeEngine::new(&cfg, AnimeType::GA401);
    e.trigger(Trigger::Boot);
    assert_eq!(e.state, EngineState::Idle);
    e.trigger(Trigger::Shutdown);
    assert_eq!(e.state, EngineState::Playing { list: Trigger::Shutdown, index: 0, elapsed: 0 });
    e.tick(5, 0);
    e.trigger(Trigger::Wake);
    assert_eq!(e.state, EngineState::Idle);
}

#[test]
fn resolving_binds_geometry() {
    let d = ActionData::from_anime_action(AnimeType::GU604, &faded(7, 300));
    assert_eq!(d.anime_type, AnimeType::GU604);
    assert_eq!(d.brightness, 300);
    assert!(matches!(d.source, FrameSource::Gif { ref file, .. } if file == "a.gif"));
    let p = ActionData::from_anime_action(AnimeType::GA401, &ActionLoader::Pause(40));
    assert!(matches!(p.source, FrameSource::Blank));
    assert_eq!(p.time, AnimTime::Fade(Fade::new(0, Some(40), 0)));
}

#[test]
fn applying_a_config_stops_playback() {
    let cfg = config(vec![faded(2000, 1000)], vec![], 1000);
    let mut e = AnimeEngine::new(&cfg, AnimeType::GA401);
    e.trigger(Trigger::Boot);
    let cfg2 = config(vec![], vec![], 3000);
    e.apply_config(&cfg2, AnimeType::GA402);
    assert_eq!(e.state, EngineState::Idle);
    assert_eq!(e.brightness, 1000);
    assert!(e.cache.boot.is_empty());
    assert_eq!(e.cache.shutdown[0].anime_type, AnimeType::GA402);
}
