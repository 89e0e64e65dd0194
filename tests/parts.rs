use kava::autostart::{disable, enable, is_enabled, register, APP_NAME, APPROVAL_LEN};
use kava::display::{icon_for, label_for, IconKind, Label, Theme};
use kava::keepawake::{InhibitError, KeepAwake};
use kava::preferences::{PrefError, PrefKey, Preferences};

#[test]
fn icon_table_light_theme() {
    assert_eq!(icon_for(Theme::Light, false), Some(IconKind::DarkIcon));
    assert_eq!(icon_for(Theme::Light, true), Some(IconKind::DarkIconActive));
}

#[test]
fn icon_table_dark_theme() {
    assert_eq!(icon_for(Theme::Dark, false), Some(IconKind::LightIcon));
    assert_eq!(icon_for(Theme::Dark, true), Some(IconKind::LightIconActive));
}

#[test]
fn icon_table_unknown_theme_keeps_icon() {
    assert_eq!(icon_for(Theme::Unknown, false), None);
    assert_eq!(icon_for(Theme::Unknown, true), None);
}

#[test]
fn icon_file_names() {
    assert_eq!(IconKind::LightIcon.file_name(), "light_icon.png");
    assert_eq!(IconKind::LightIconActive.file_name(), "light_icon_active.png");
    assert_eq!(IconKind::DarkIcon.file_name(), "dark_icon.png");
    assert_eq!(IconKind::DarkIconActive.file_name(), "dark_icon_active.png");
}

#[test]
fn primary_label_text() {
    assert_eq!(label_for(true), Label::Deactivate);
    assert_eq!(label_for(false), Label::Activate);
    assert_eq!(Label::Activate.text(), "Activate");
    assert_eq!(Label::Deactivate.text(), "Deactivate");
}

#[test]
fn activation_flags_values() {
    assert_eq!(KeepAwake::activation_flags(true), 0x8000_0003);
    assert_eq!(KeepAwake::activation_flags(false), 0x8000_0001);
}

#[test]
fn activate_zero_state_fails() {
    let mut k = KeepAwake::new();
    assert_eq!(k.activate(0), Err(InhibitError::ZeroState));
    assert!(!k.is_engaged());
    assert_eq!(k.release(), None);
}

#[test]
fn release_restores_previous_once() {
    let mut k = KeepAwake::new();
    assert_eq!(k.activate(0x8000_0000), Ok(()));
    assert!(k.is_engaged());
    assert_eq!(k.release(), Some(0x8000_0000));
    assert!(!k.is_engaged());
    assert_eq!(k.release(), None);
}

#[test]
fn second_activation_keeps_first_snapshot() {
    let mut k = KeepAwake::new();
    assert_eq!(k.activate(0x8000_0000), Ok(()));
    assert_eq!(k.activate(0x8000_0003), Ok(()));
    assert_eq!(k.release(), Some(0x8000_0000));
    assert_eq!(k.release(), None);
}

#[test]
fn activate_for_returns_duration() {
    let mut k = KeepAwake::new();
    assert_eq!(k.activate_for(0, 2700), None);
    assert!(!k.is_engaged());
    assert_eq!(k.activate_for(0x8000_0000, 2700), Some(2700));
    assert!(k.is_engaged());
}

#[test]
fn preference_key_names_and_defaults() {
    assert_eq!(PrefKey::RunActivated.name(), "run_activated");
    assert_eq!(PrefKey::ToggleWithLeftClick.name(), "toggle_with_left_click");
    assert!(!PrefKey::RunActivated.default_value());
    assert!(PrefKey::ToggleWithLeftClick.default_value());
}

#[test]
fn init_fresh_table_writes_defaults() {
    let mut p = Preferences::new(None, None);
    assert_eq!(p.load_preference(PrefKey::RunActivated), Err(PrefError::Missing));
    let written = p.init();
    assert_eq!(written, vec![PrefKey::RunActivated, PrefKey::ToggleWithLeftClick]);
    assert_eq!(p.load_preference(PrefKey::RunActivated), Ok(false));
    assert_eq!(p.load_preference(PrefKey::ToggleWithLeftClick), Ok(true));
}

#[test]
fn init_keeps_stored_values() {
    let mut p = Preferences::new(Some(true), None);
    let written = p.init();
    assert_eq!(written, vec![PrefKey::ToggleWithLeftClick]);
    assert_eq!(p.load_preference(PrefKey::RunActivated), Ok(true));
    assert_eq!(p.load_preference(PrefKey::ToggleWithLeftClick), Ok(true));
    let mut q = Preferences::new(Some(false), Some(false));
    assert!(q.init().is_empty());
    assert_eq!(q.load_preference(PrefKey::ToggleWithLeftClick), Ok(false));
}

#[test]
fn save_then_load() {
    let mut p = Preferences::new(None, None);
    p.init();
    p.save_preference(PrefKey::RunActivated, true);
    assert_eq!(p.load_preference(PrefKey::RunActivated), Ok(true));
    assert_eq!(p.load_preference(PrefKey::ToggleWithLeftClick), Ok(true));
    p.save_preference(PrefKey::RunActivated, false);
    assert_eq!(p.load_preference(PrefKey::RunActivated), Ok(false));
}

#[test]
fn toggle_twice_restores() {
    let mut p = Preferences::new(None, None);
    p.init();
    assert_eq!(p.toggle_preference(PrefKey::ToggleWithLeftClick), Some(false));
    assert_eq!(p.load_preference(PrefKey::ToggleWithLeftClick), Ok(false));
    assert_eq!(p.toggle_preference(PrefKey::ToggleWithLeftClick), Some(true));
    assert_eq!(p.load_preference(PrefKey::ToggleWithLeftClick), Ok(true));
}

#[test]
fn toggle_missing_key_is_noop() {
    let mut p = Preferences::new(None, None);
    assert_eq!(p.toggle_preference(PrefKey::RunActivated), None);
    assert_eq!(p.load_preference(PrefKey::RunActivated), Err(PrefError::Missing));
}

#[test]
fn approval_records_exact_bytes() {
    assert_eq!(enable(), vec![0x02, 0, 0, 0, 0, 0, 0, 0, 0, 0, 0, 0]);
    assert_eq!(disable(), vec![0x03, 0, 0, 0, 0, 0, 0, 0, 0, 0, 0, 0]);
    assert_eq!(enable().len(), APPROVAL_LEN);
}

#[test]
fn enable_then_is_enabled() {
    assert!(is_enabled(&enable()));
    assert!(!is_enabled(&disable()));
}

#[test]
fn is_enabled_reads_leading_byte() {
    assert!(!is_enabled(&[]));
    assert!(is_enabled(&[0x02]));
    assert!(!is_enabled(&[0x00, 0x02]));
    assert!(!is_enabled(&[0x06, 0, 0, 0, 0, 0, 0, 0, 0, 0, 0, 0]));
}

#[test]
fn register_run_entry() {
    let e = register("C:\\Tools\\kava.exe");
    assert_eq!(e.name, APP_NAME);
    assert_eq!(e.name, "kava");
    assert_eq!(e.command, "C:\\Tools\\kava.exe");
}

#[test]
fn register_twice_same_entry() {
    let a = register("C:\\Tools\\kava.exe");
    let b = register("C:\\Tools\\kava.exe");
    assert_eq!(a.name, b.name);
    assert_eq!(a.command, b.command);
}
