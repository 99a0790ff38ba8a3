use rog_core::capability::{Attr, SupportedFunctions};
use rog_core::controller::{
    get_gpu_mode, get_kbd_brightness, get_post_sound,
    set_charge_limit, set_dedicated_gfx, set_fan_curve, set_gpu_mode, set_kbd_brightness, set_kbd_rgb_mode,
    set_post_sound, write_direct, CtrlError, Notification, Profile, ProfileController, FULL_PANE_LEN,
};
use rog_core::fan_curve::{parse_curve, CurveError, CurvePoint};
use rog_core::gpu::GpuMode;

fn all() -> Vec<Attr> {
    vec![
        Attr::KbdBrightness,
        Attr::KbdRgbMode,
        Attr::KbdRgbState,
        Attr::ThrottlePolicy,
        Attr::FanCurve,
        Attr::ChargeLimit,
        Attr::PostSound,
        Attr::DgpuDisable,
        Attr::EgpuEnable,
        Attr::GpuMuxMode,
        Attr::PanelOd,
        Attr::AnimeMatrix,
    ]
}

#[test]
fn probe_marks_missing_features_unsupported() {
    let s = SupportedFunctions::probe(&vec![Attr::KbdBrightness, Attr::AnimeMatrix]);
    assert!(s.keyboard_led.brightness_set);
    assert!(s.anime_ctrl);
    assert!(!s.keyboard_led.rgb_mode_set);
    assert!(!s.charge_level_set);
    assert!(!s.fan_cpu_ctrl.fan_curve_set);
    assert!(s.supports(Attr::AnimeMatrix) && !s.supports(Attr::PostSound));
}

#[test]
fn unsupported_sets_write_nothing() {
    let s = SupportedFunctions::probe(&vec![]);
    assert_eq!(set_kbd_brightness(&s, 1).unwrap_err(), CtrlError::Unsupported(Attr::KbdBrightness));
    assert_eq!(set_kbd_rgb_mode(&s, vec![1, 2]).unwrap_err(), CtrlError::Unsupported(Attr::KbdRgbMode));
    assert_eq!(set_charge_limit(&s, 80).unwrap_err(), CtrlError::Unsupported(Attr::ChargeLimit));
    assert_eq!(set_post_sound(&s, true).unwrap_err(), CtrlError::Unsupported(Attr::PostSound));
    assert_eq!(set_gpu_mode(&s, GpuMode::Discrete).unwrap_err(), CtrlError::Unsupported(Attr::GpuMuxMode));
    assert_eq!(write_direct(&s, vec![0; FULL_PANE_LEN]).unwrap_err(), CtrlError::Unsupported(Attr::AnimeMatrix));
    let curve = parse_curve("30c:1%").unwrap();
    assert_eq!(set_fan_curve(&s, Profile::Quiet, &curve).unwrap_err(), CtrlError::Unsupported(Attr::FanCurve));
    let mut p = ProfileController::new(vec![Profile::Balanced, Profile::Quiet]);
    assert_eq!(p.next_profile(&s).unwrap_err(), CtrlError::Unsupported(Attr::ThrottlePolicy));
    assert_eq!(p.active, 0);
}

#[test]
fn supported_sets_write_once_and_notify() {
    let s = SupportedFunctions::probe(&all());
    let c = set_kbd_brightness(&s, 2).unwrap();
    assert_eq!(c.writes.len(), 1);
    assert_eq!(c.writes[0].attr, Attr::KbdBrightness);
    assert_eq!(c.writes[0].bytes, vec![2]);
    assert_eq!(c.notify, Notification::KbdBrightness(2));
    let g = set_gpu_mode(&s, GpuMode::Discrete).unwrap();
    assert_eq!(g.writes[0].bytes, vec![b'0']);
    let d = set_dedicated_gfx(&s, false).unwrap();
    assert_eq!(d.writes[0].bytes, vec![b'1']);
    assert_eq!(set_post_sound(&s, true).unwrap().writes[0].bytes, vec![1]);
}

#[test]
fn invalid_values_are_refused() {
    let s = SupportedFunctions::probe(&all());
    assert_eq!(set_kbd_brightness(&s, 4).unwrap_err(), CtrlError::Invalid(Attr::KbdBrightness));
    assert_eq!(set_charge_limit(&s, 19).unwrap_err(), CtrlError::Invalid(Attr::ChargeLimit));
    assert_eq!(set_charge_limit(&s, 101).unwrap_err(), CtrlError::Invalid(Attr::ChargeLimit));
    assert_eq!(set_gpu_mode(&s, GpuMode::Error).unwrap_err(), CtrlError::Invalid(Attr::GpuMuxMode));
    assert_eq!(write_direct(&s, vec![0; 3]).unwrap_err(), CtrlError::Invalid(Attr::AnimeMatrix));
    assert!(write_direct(&s, vec![0; FULL_PANE_LEN]).is_ok());
}

#[test]
fn fan_curve_is_checked_before_writing() {
    let s = SupportedFunctions::probe(&all());
    let bad = vec![
        CurvePoint { temp: 50, value: 10, percent: true },
        CurvePoint { temp: 40, value: 20, percent: true },
    ];
    assert_eq!(set_fan_curve(&s, Profile::Balanced, &bad).unwrap_err(), CtrlError::Curve(CurveError::NotIncreasing));
    let good = parse_curve("30c:1%,49c:2%").unwrap();
    let c = set_fan_curve(&s, Profile::Balanced, &good).unwrap();
    assert_eq!(c.writes[0].attr, Attr::FanCurve);
    assert_eq!(c.writes[0].bytes, vec![30, 49, 1, 2]);
    assert_eq!(c.notify, Notification::FanCurve(Profile::Balanced));
}

#[test]
fn profiles_cycle_and_select() {
    let s = SupportedFunctions::probe(&all());
    let mut p = ProfileController::new(vec![Profile::Balanced, Profile::Performance, Profile::Quiet]);
    let c = p.next_profile(&s).unwrap();
    assert_eq!(p.active_profile(), Profile::Performance);
    assert_eq!(c.writes[0].bytes, vec![1]);
    p.next_profile(&s).unwrap();
    p.next_profile(&s).unwrap();
    assert_eq!(p.active_profile(), Profile::Balanced);
    let c = p.set_profile(&s, Profile::Quiet).unwrap();
    assert_eq!(c.notify, Notification::Profile(Profile::Quiet));
    assert_eq!(c.writes[0].bytes, vec![2]);
    let mut only = ProfileController::new(vec![Profile::Balanced]);
    assert_eq!(only.set_profile(&s, Profile::Quiet).unwrap_err(), CtrlError::Invalid(Attr::ThrottlePolicy));
    assert_eq!(only.active_profile(), Profile::Balanced);
}

#[test]
fn reads_are_gated_and_default_on_failure() {
    let none = SupportedFunctions::probe(&vec![]);
    assert_eq!(get_kbd_brightness(&none, Some(2)), Err(CtrlError::Unsupported(Attr::KbdBrightness)));
    assert_eq!(get_post_sound(&none, Some(1)), Err(CtrlError::Unsupported(Attr::PostSound)));
    assert_eq!(get_gpu_mode(&none, None, None), Err(CtrlError::Unsupported(Attr::GpuMuxMode)));
    let s = SupportedFunctions::probe(&all());
    assert_eq!(get_kbd_brightness(&s, Some(2)), Ok(2));
    assert_eq!(get_kbd_brightness(&s, None), Ok(0));
    assert_eq!(get_post_sound(&s, Some(1)), Ok(true));
    assert_eq!(get_post_sound(&s, None), Ok(false));
    assert_eq!(get_gpu_mode(&s, Some(1), Some(b'0')), Ok(GpuMode::Integrated));
    assert_eq!(get_gpu_mode(&s, None, Some(b'0')), Ok(GpuMode::Discrete));
}
