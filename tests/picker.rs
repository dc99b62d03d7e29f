use tab_picker::config::Config;
use tab_picker::picker::{interpret, Command, Event, Item, Key, KeyEvent, Picker, Reaction};
use tab_picker::text::{contains, same_text};

fn item(position: usize, name: &str, active: bool) -> Item {
    Item { position, name: name.to_string(), active }
}

fn plain(key: Key) -> KeyEvent {
    KeyEvent { key, ctrl: false, shift: false, alt: false, super_key: false }
}

fn ctrl(c: char) -> KeyEvent {
    KeyEvent { key: Key::Char(c), ctrl: true, shift: false, alt: false, super_key: false }
}

fn greek() -> Vec<Item> {
    vec![item(0, "alpha", true), item(1, "beta", false), item(2, "gamma", false)]
}

fn loaded(items: Vec<Item>) -> Picker {
    let mut p = Picker::new(Config::new());
    p.update(Event::TabsChanged(items));
    p
}

fn type_text(p: &mut Picker, text: &str) {
    for c in text.chars() {
        p.handle_key(&plain(Key::Char(c)));
    }
}

#[test]
fn scenario_load_filter_and_wrap() {
    let mut p = loaded(greek());
    assert_eq!(p.selected, Some(0));
    type_text(&mut p, "a");
    // "beta" holds an "a" as well, so all three stay visible.
    assert_eq!(p.viewable_tabs(), vec![0, 1, 2]);
    assert_eq!(p.selected, Some(0));
    p.select_down();
    assert_eq!(p.selected, Some(1));
    p.select_down();
    assert_eq!(p.selected, Some(2));
    p.select_down();
    assert_eq!(p.selected, Some(0));
}

fn numbers() -> Vec<Item> {
    vec![item(0, "one", true), item(1, "two", false), item(2, "three", false)]
}

#[test]
fn filter_hides_middle_tab_and_wraps() {
    let mut p = loaded(numbers());
    type_text(&mut p, "E");
    assert_eq!(p.viewable_tabs(), vec![0, 2]);
    assert_eq!(p.selected, Some(0));
    p.select_down();
    assert_eq!(p.selected, Some(2));
    p.select_down();
    assert_eq!(p.selected, Some(0));
}

#[test]
fn quick_jump_digit_requests_activation() {
    let mut config = Config::new();
    config.quick_jump = true;
    let mut p = Picker::new(config);
    p.update(Event::TabsChanged(greek()));
    let r = p.handle_key(&plain(Key::Char('2')));
    assert_eq!(r, Reaction { render: false, close: true, activate: Some(2) });
    assert_eq!(p.filter, "");
}

#[test]
fn digit_without_quick_jump_is_typed() {
    let mut p = loaded(greek());
    let r = p.handle_key(&plain(Key::Char('2')));
    assert_eq!(r, Reaction { render: true, close: false, activate: None });
    assert_eq!(p.filter, "2");
    assert_eq!(p.selected, None);
}

#[test]
fn visible_subset_is_the_matching_tabs() {
    let mut p = loaded(vec![item(0, "Editor", false), item(1, "logs", false), item(2, "shell", false), item(3, "EDIT", false)]);
    type_text(&mut p, "edit");
    assert_eq!(p.viewable_tabs(), vec![0, 3]);
    p.config.ignore_case = false;
    assert_eq!(p.viewable_tabs(), Vec::<usize>::new());
}

#[test]
fn empty_filter_shows_everything() {
    let p = loaded(greek());
    assert_eq!(p.viewable_tabs(), vec![0, 1, 2]);
}

#[test]
fn no_match_clears_selection() {
    let mut p = loaded(greek());
    type_text(&mut p, "zz");
    assert_eq!(p.viewable_tabs(), Vec::<usize>::new());
    assert_eq!(p.selected, None);
    p.select_down();
    assert_eq!(p.selected, None);
    p.select_up();
    assert_eq!(p.selected, None);
}

#[test]
fn reset_twice_is_reset_once() {
    let mut p = loaded(greek());
    p.filter = "m".to_string();
    p.reset_selection();
    let once = p.selected;
    p.reset_selection();
    assert_eq!(once, Some(2));
    assert_eq!(p.selected, once);
}

#[test]
fn wraparound_both_ways() {
    let mut p = loaded(greek());
    p.selected = Some(2);
    p.select_down();
    assert_eq!(p.selected, Some(0));
    p.select_up();
    assert_eq!(p.selected, Some(2));
    p.select_up();
    assert_eq!(p.selected, Some(1));
}

#[test]
fn recovery_from_hidden_selection() {
    let mut p = loaded(numbers());
    p.filter = "e".to_string();
    p.selected = Some(1);
    p.select_down();
    assert_eq!(p.selected, Some(0));
    p.selected = Some(1);
    p.select_up();
    assert_eq!(p.selected, Some(2));
    p.selected = None;
    p.select_down();
    assert_eq!(p.selected, Some(0));
}

#[test]
fn append_then_backspace_round_trip() {
    let mut p = loaded(numbers());
    type_text(&mut p, "e");
    p.select_down();
    assert_eq!(p.selected, Some(2));
    p.handle_key(&plain(Key::Char('n')));
    assert_eq!(p.filter, "en");
    assert_eq!(p.selected, None);
    let r = p.handle_key(&plain(Key::Backspace));
    assert!(r.render);
    assert_eq!(p.filter, "e");
    assert_eq!(p.selected, Some(0));
}

#[test]
fn backspace_on_empty_filter() {
    let mut p = loaded(greek());
    p.selected = Some(1);
    p.handle_key(&plain(Key::Backspace));
    assert_eq!(p.filter, "");
    assert_eq!(p.selected, Some(0));
}

#[test]
fn new_tab_list_selects_active() {
    let mut p = loaded(greek());
    p.select_down();
    assert_eq!(p.selected, Some(1));
    let r = p.update(Event::TabsChanged(vec![item(0, "a", false), item(1, "b", false), item(2, "c", true)]));
    assert!(r.render);
    assert_eq!(p.selected, Some(2));
    p.update(Event::TabsChanged(vec![item(0, "a", false)]));
    assert_eq!(p.selected, None);
}

#[test]
fn confirm_activates_selected() {
    let mut p = loaded(greek());
    p.select_down();
    let r = p.handle_key(&plain(Key::Enter));
    assert_eq!(r, Reaction { render: false, close: true, activate: Some(1) });
    p.update(Event::TabsChanged(vec![item(0, "a", false)]));
    let r = p.handle_key(&plain(Key::Enter));
    assert_eq!(r, Reaction { render: false, close: false, activate: None });
}

#[test]
fn confirm_forwards_position_without_checking_tabs() {
    let mut p = loaded(greek());
    p.selected = Some(5);
    let r = p.handle_key(&plain(Key::Enter));
    assert_eq!(r, Reaction { render: false, close: true, activate: Some(5) });
    assert_eq!(p.selected, Some(5));
}

#[test]
fn cancel_keys_close() {
    let mut p = loaded(greek());
    let closed = Reaction { render: false, close: true, activate: None };
    assert_eq!(p.handle_key(&plain(Key::Esc)), closed);
    assert_eq!(p.handle_key(&ctrl('c')), closed);
    assert_eq!(p.selected, Some(0));
    assert_eq!(p.filter, "");
}

#[test]
fn navigation_keys() {
    let mut p = loaded(greek());
    p.handle_key(&plain(Key::Down));
    assert_eq!(p.selected, Some(1));
    p.handle_key(&plain(Key::Tab));
    assert_eq!(p.selected, Some(2));
    p.handle_key(&ctrl('n'));
    assert_eq!(p.selected, Some(0));
    p.handle_key(&plain(Key::Up));
    assert_eq!(p.selected, Some(2));
    let shift_tab = KeyEvent { key: Key::Tab, ctrl: false, shift: true, alt: false, super_key: false };
    p.handle_key(&shift_tab);
    assert_eq!(p.selected, Some(1));
    p.handle_key(&ctrl('k'));
    assert_eq!(p.selected, Some(0));
    p.handle_key(&ctrl('p'));
    assert_eq!(p.selected, Some(2));
}

#[test]
fn other_keys_are_ignored() {
    let mut p = loaded(greek());
    let none = Reaction { render: false, close: false, activate: None };
    assert_eq!(p.handle_key(&plain(Key::Other)), none);
    assert_eq!(p.handle_key(&plain(Key::Char('-'))), none);
    let alt_tab = KeyEvent { key: Key::Tab, ctrl: false, shift: false, alt: true, super_key: false };
    assert_eq!(p.handle_key(&alt_tab), none);
    assert_eq!(p.filter, "");
    assert_eq!(p.selected, Some(0));
}

#[test]
fn interpret_table() {
    assert_eq!(interpret(&plain(Key::Char('7')), true), Command::QuickJump(7));
    assert_eq!(interpret(&plain(Key::Char('7')), false), Command::Append('7'));
    assert_eq!(interpret(&plain(Key::Char('Q')), true), Command::Append('Q'));
    assert_eq!(interpret(&ctrl('x'), false), Command::Append('x'));
    assert_eq!(interpret(&plain(Key::Char('é')), false), Command::Ignore);
}

#[test]
fn matcher_cases() {
    let s = |t: &str| t.to_string();
    assert!(tab_picker::matcher::matches(&s("Alpha"), &s("LPH"), true));
    assert!(!tab_picker::matcher::matches(&s("Alpha"), &s("LPH"), false));
    assert!(tab_picker::matcher::matches(&s("alpha"), &s("alpha"), false));
    assert!(tab_picker::matcher::matches(&s("alpha"), &s(""), false));
    assert!(!tab_picker::matcher::matches(&s("al"), &s("alpha"), true));
    assert!(tab_picker::matcher::matches(&s("Beta"), &s(""), true));
}

#[test]
fn text_search() {
    assert!(contains("hello", "llo"));
    assert!(!contains("hello", "lol"));
    assert!(contains("", ""));
    assert!(same_text("abc", "abc"));
    assert!(!same_text("abc", "abd"));
}
