use rog_core::capability::{Attr, SupportedFunctions};
use rog_core::cli::{
    command_shown, contains_text, gfx_change_confirmed, option_shown, supported_help_lines, supported_led_mode_lines,
};
use rog_core::controller::Profile;
use rog_core::platform::{AsusPlatform, KeyboardLed, OrgAsuslinuxDaemonNotifyProfile, PlatformError};

fn chars(s: &str) -> Vec<char> {
    s.chars().collect()
}

#[test]
fn substring_search() {
    assert!(contains_text(&chars("  --fan-mode  <silent>"), &chars("--fan-mode")));
    assert!(!contains_text(&chars("--fan"), &chars("--fan-mode")));
    assert!(contains_text(&chars("abc"), &chars("")));
}

#[test]
fn help_lines_hide_unsupported_features() {
    let none = SupportedFunctions::probe(&vec![]);
    assert!(!option_shown("  -f, --fan-mode  set fan mode", &none));
    assert!(!option_shown("  -c, --chg-limit  <20-100>", &none));
    assert!(option_shown("  -h, --help", &none));
    assert!(!command_shown("  anime  Manage AniMe Matrix", &none));
    assert!(!command_shown("  bios  Change bios settings", &none));
    let full = SupportedFunctions::probe(&vec![Attr::ThrottlePolicy, Attr::ChargeLimit, Attr::AnimeMatrix]);
    assert!(option_shown("  -f, --fan-mode", &full));
    assert!(command_shown("  anime", &full));
    let lines = vec!["  -h, --help".to_string(), "  -f, --fan-mode".to_string(), "  -v, --version".to_string()];
    assert_eq!(supported_help_lines(&lines, &none, false), vec!["  -h, --help".to_string(), "  -v, --version".to_string()]);
    assert_eq!(supported_help_lines(&lines, &full, false), lines);
}

#[test]
fn gfx_confirmation() {
    assert!(gfx_change_confirmed(Some('y'), false));
    assert!(gfx_change_confirmed(Some('Y'), false));
    assert!(!gfx_change_confirmed(Some('n'), false));
    assert!(!gfx_change_confirmed(None, false));
    assert!(gfx_change_confirmed(None, true));
}

#[test]
fn devices_from_scan() {
    let p = AsusPlatform::new(Ok(Some("/sys/devices/platform/asus-nb-wmi".to_string()))).unwrap();
    assert_eq!(p.path(), "/sys/devices/platform/asus-nb-wmi");
    assert_eq!(p.pp_path(), "/sys/firmware/acpi");
    assert_eq!(
        AsusPlatform::new(Ok(None)).unwrap_err(),
        PlatformError::MissingFunction("asus-nb-wmi not found".to_string())
    );
    assert_eq!(
        KeyboardLed::new(Ok(None)).unwrap_err(),
        PlatformError::MissingFunction("asus::kbd_backlight not found".to_string())
    );
    let e = PlatformError::Udev("scan_devices failed".to_string());
    assert_eq!(KeyboardLed::new(Err(e.clone())).unwrap_err(), e);
    assert_eq!(KeyboardLed::new(Ok(Some("/x".to_string()))).unwrap().path(), "/x");
}

#[test]
fn profile_signal_names() {
    assert_eq!(OrgAsuslinuxDaemonNotifyProfile::for_profile(Profile::Quiet).profile, "Quiet");
    assert_eq!(OrgAsuslinuxDaemonNotifyProfile::for_profile(Profile::Performance).profile, "Performance");
}

#[test]
fn led_mode_commands_follow_stock_modes() {
    let commands = vec!["static".to_string(), "breathe".to_string(), "strobe".to_string(), "rainbow".to_string()];
    assert_eq!(supported_led_mode_lines(&commands, &Some(vec![0, 2])), vec!["static".to_string(), "strobe".to_string()]);
    assert!(supported_led_mode_lines(&commands, &None).is_empty());
    assert!(supported_led_mode_lines(&commands, &Some(vec![])).is_empty());
}
