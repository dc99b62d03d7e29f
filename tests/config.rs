use owo_colors::AnsiColors;
use tab_picker::config::{is_known, load, unused_report, Config, Setting};

fn entries(pairs: &[(&str, &str)]) -> Vec<(String, String)> {
    pairs.iter().map(|(k, v)| (k.to_string(), v.to_string())).collect()
}

#[test]
fn unknown_key_warns_without_failing() {
    let es = entries(&[("bogus_key", "x"), ("selection_color", "green")]);
    let loaded = match load(&es) {
        Ok(l) => l,
        Err(_) => panic!("load failed"),
    };
    assert_eq!(loaded.config.selection_color, AnsiColors::Green);
    assert_eq!(loaded.unused, entries(&[("bogus_key", "x")]));
    let report = unused_report(&loaded.unused);
    assert_eq!(report, "('bogus_key': 'x')\n\n");
}

#[test]
fn defaults() {
    let c = Config::new();
    assert!(c.ignore_case);
    assert!(!c.quick_jump);
    assert_eq!(c.selection_color, AnsiColors::Yellow);
    assert!(c.selection_on_foreground);
    assert_eq!(c.active_tab_color, None);
    assert!(c.underline_active);
    assert!(!c.active_color_on_background);
    let l = match load(&Vec::new()) {
        Ok(l) => l,
        Err(_) => panic!("load failed"),
    };
    assert_eq!(l.config.selection_color, AnsiColors::Yellow);
    assert!(l.config.ignore_case);
    assert!(l.unused.is_empty());
}

#[test]
fn every_option_read() {
    let es = entries(&[
        ("ignore_case", " false "),
        ("quick_jump", "true"),
        ("selection_color", " bright red "),
        ("apply_selection_accent_to", "bg"),
        ("active_tab_color", "blue"),
        ("apply_tab_color_to", "background"),
        ("underline_active", "false"),
    ]);
    let c = match load(&es) {
        Ok(l) => l.config,
        Err(_) => panic!("load failed"),
    };
    assert!(!c.ignore_case);
    assert!(c.quick_jump);
    assert_eq!(c.selection_color, AnsiColors::BrightRed);
    assert!(!c.selection_on_foreground);
    assert_eq!(c.active_tab_color, Some(AnsiColors::Blue));
    assert!(c.active_color_on_background);
    assert!(!c.underline_active);
}

#[test]
fn active_color_none_and_unknown_color() {
    let es = entries(&[("active_tab_color", " none "), ("selection_color", "teal")]);
    let c = match load(&es) {
        Ok(l) => l.config,
        Err(_) => panic!("load failed"),
    };
    assert_eq!(c.active_tab_color, None);
    assert_eq!(c.selection_color, AnsiColors::White);
}

fn error_of(pairs: &[(&str, &str)]) -> (Setting, String) {
    match load(&entries(pairs)) {
        Ok(_) => panic!("load succeeded"),
        Err(e) => (e.setting, e.value),
    }
}

#[test]
fn malformed_values_are_fatal() {
    assert_eq!(error_of(&[("ignore_case", "yes")]), (Setting::IgnoreCase, "yes".to_string()));
    assert_eq!(error_of(&[("quick_jump", "1")]), (Setting::QuickJump, "1".to_string()));
    assert_eq!(
        error_of(&[("apply_selection_accent_to", " fg")]),
        (Setting::SelectionAccentTarget, " fg".to_string())
    );
    assert_eq!(error_of(&[("apply_tab_color_to", "left")]), (Setting::TabColorTarget, "left".to_string()));
    assert_eq!(error_of(&[("underline_active", "TRUE")]), (Setting::UnderlineActive, "TRUE".to_string()));
}

#[test]
fn first_malformed_setting_wins() {
    let e = error_of(&[("underline_active", "no"), ("quick_jump", "no")]);
    assert_eq!(e.0, Setting::QuickJump);
}

#[test]
fn known_keys() {
    assert!(is_known("apply_tab_color_to"));
    assert!(!is_known("apply_tab_color"));
}
