use crush::app::{App, Effect};
use crush::json::load_config;
use crush::model::ItemKind;
use crush::render::Style;
use serde_json::Value;

fn app(text: &str) -> App {
    App::new(load_config(Some(text.to_string())))
}

fn current(a: &App) -> ItemKind {
    a.categories()[a.cat_index()].items[a.item_index()].kind.clone()
}

/// Selects category `ci`, setting `ii` by key presses.
fn select(a: &mut App, ci: usize, ii: usize) {
    while a.cat_index() > 0 {
        a.prev_category();
    }
    for _ in 0..ci {
        a.next_category();
    }
    for _ in 0..ii {
        a.move_down();
    }
    assert_eq!((a.cat_index(), a.item_index()), (ci, ii));
}

fn theme_of(a: &App) -> String {
    match current(a) {
        ItemKind::Theme(t) => t,
        _ => panic!("not a theme"),
    }
}

#[test]
fn starts_on_first_setting() {
    let a = app("{}");
    assert_eq!(a.cat_index(), 0);
    assert_eq!(a.item_index(), 0);
    assert!(!a.is_dirty());
    assert_eq!(a.categories().len(), 7);
    assert!(a.config_writable());
}

#[test]
fn moving_through_settings() {
    let mut a = app("{}");
    a.move_down();
    assert_eq!(a.item_index(), 0); // the theme category has one setting
    a.move_up();
    assert_eq!(a.item_index(), 0);
    a.next_category();
    assert_eq!((a.cat_index(), a.item_index()), (1, 0));
    for _ in 0..10 {
        a.move_down();
    }
    assert_eq!(a.item_index(), 7);
    a.move_up();
    assert_eq!(a.item_index(), 6);
    a.next_category();
    assert_eq!((a.cat_index(), a.item_index()), (2, 0));
    for _ in 0..10 {
        a.next_category();
    }
    assert_eq!(a.cat_index(), 6);
    a.prev_category();
    assert_eq!((a.cat_index(), a.item_index()), (5, 0));
    for _ in 0..10 {
        a.prev_category();
    }
    assert_eq!(a.cat_index(), 0);
}

#[test]
fn cycling_themes() {
    let mut a = app("{}");
    a.next_value();
    assert_eq!(theme_of(&a), "solarized");
    assert!(a.is_dirty());
    assert_eq!(a.config()["theme"].as_str(), Some("solarized"));
    for _ in 0..4 {
        a.next_value();
    }
    assert_eq!(theme_of(&a), "monokai");
    a.next_value();
    assert_eq!(theme_of(&a), "default");
    a.prev_value();
    assert_eq!(theme_of(&a), "monokai");
    assert_eq!(a.config()["theme"].as_str(), Some("monokai"));
}

#[test]
fn unknown_theme_counts_as_the_first() {
    let mut a = app(r#"{"theme":"custom"}"#);
    a.next_value();
    assert_eq!(theme_of(&a), "solarized");
    let mut b = app(r#"{"theme":"custom"}"#);
    b.prev_value();
    assert_eq!(theme_of(&b), "monokai");
}

#[test]
fn cycling_colors_wraps() {
    let mut a = app(r#"{"c_user":255}"#);
    select(&mut a, 1, 0);
    a.next_value();
    assert!(matches!(current(&a), ItemKind::Color(0)));
    assert_eq!(a.config()["c_user"].as_u64(), Some(0));
    a.prev_value();
    assert!(matches!(current(&a), ItemKind::Color(255)));
    a.prev_value();
    assert!(matches!(current(&a), ItemKind::Color(254)));
    assert_eq!(a.config()["c_user"].as_u64(), Some(254));
}

#[test]
fn cycling_numbers_and_flags() {
    let mut a = app("{}");
    select(&mut a, 4, 2); // Max results
    a.next_value();
    assert!(matches!(current(&a), ItemKind::Number(11)));
    assert_eq!(a.config()["completion_limit"].as_u64(), Some(11));
    let mut b = app("{}");
    select(&mut b, 5, 5); // slow command threshold, 0
    b.prev_value();
    assert!(matches!(current(&b), ItemKind::Number(0)));
    assert!(b.is_dirty());
    select(&mut b, 5, 1); // auto pair, true
    b.next_value();
    assert!(matches!(current(&b), ItemKind::Bool(false)));
    assert_eq!(b.config()["auto_pair"].as_bool(), Some(false));
    b.prev_value();
    assert!(matches!(current(&b), ItemKind::Bool(true)));
}

#[test]
fn cycling_choices() {
    let mut a = app("{}");
    select(&mut a, 5, 7);
    a.next_value();
    assert!(matches!(current(&a), ItemKind::Choice(_, ref c) if c == "off"));
    assert_eq!(a.config()["history_dedup"].as_str(), Some("off"));
    a.prev_value();
    assert!(matches!(current(&a), ItemKind::Choice(_, ref c) if c == "smart"));
    a.prev_value();
    assert!(matches!(current(&a), ItemKind::Choice(_, ref c) if c == "full"));
    let mut b = app(r#"{"history_dedup":"weird"}"#);
    select(&mut b, 5, 7);
    b.next_value();
    assert!(matches!(current(&b), ItemKind::Choice(_, ref c) if c == "full"));
}

#[test]
fn text_does_not_cycle_but_writes_document() {
    let mut a = app(r#"{"bookmarks":{"h":"~"}}"#);
    select(&mut a, 6, 0);
    a.next_value();
    assert!(matches!(current(&a), ItemKind::Text(ref t) if t == "rtfm"));
    assert!(!a.is_dirty());
    // every setting is written, and other keys are kept
    assert_eq!(a.config()["file_manager"].as_str(), Some("rtfm"));
    assert_eq!(a.config()["c_user"].as_u64(), Some(2));
    assert_eq!(a.config()["completion_fuzzy"].as_bool(), Some(false));
    assert_eq!(a.config()["bookmarks"]["h"].as_str(), Some("~"));
    assert_eq!(a.config().as_object().unwrap().len(), 36);
}

#[test]
fn editing_text() {
    let mut a = app("{}");
    select(&mut a, 6, 0);
    let p = a.begin_edit().expect("a text is asked for");
    assert_eq!(p.prompt, "File manager: ");
    assert_eq!(p.initial, "rtfm");
    a.finish_edit(String::new());
    assert!(matches!(current(&a), ItemKind::Text(ref t) if t == "rtfm"));
    assert!(!a.is_dirty());
    a.finish_edit("ranger".to_string());
    assert!(matches!(current(&a), ItemKind::Text(ref t) if t == "ranger"));
    assert!(a.is_dirty());
    assert_eq!(a.config()["file_manager"].as_str(), Some("ranger"));
}

#[test]
fn editing_numbers_and_colors() {
    let mut a = app("{}");
    select(&mut a, 4, 2);
    let p = a.begin_edit().unwrap();
    assert_eq!(p.prompt, "Max results: ");
    assert_eq!(p.initial, "10");
    a.finish_edit("abc".to_string());
    assert!(matches!(current(&a), ItemKind::Number(10)));
    assert!(!a.is_dirty());
    a.finish_edit("+15".to_string());
    assert!(matches!(current(&a), ItemKind::Number(15)));
    assert!(a.is_dirty());
    select(&mut a, 1, 2);
    let p = a.begin_edit().unwrap();
    assert_eq!(p.prompt, "Directory (0-255): ");
    assert_eq!(p.initial, "81");
    a.finish_edit("256".to_string());
    assert!(matches!(current(&a), ItemKind::Color(81)));
    a.finish_edit("255".to_string());
    assert!(matches!(current(&a), ItemKind::Color(255)));
    assert_eq!(a.config()["c_cwd"].as_u64(), Some(255));
}

#[test]
fn editing_other_settings_cycles() {
    let mut a = app("{}");
    assert!(a.begin_edit().is_none());
    assert_eq!(theme_of(&a), "solarized");
    assert!(a.is_dirty());
}

#[test]
fn accepting_the_offered_value_keeps_it() {
    let mut a = app(r#"{"completion_limit":18446744073709551615}"#);
    select(&mut a, 4, 2);
    let p = a.begin_edit().unwrap();
    a.finish_edit(p.initial);
    assert!(matches!(current(&a), ItemKind::Number(u64::MAX)));
    assert!(!a.can_step_up());
}

#[test]
fn saving_round_trips() {
    let mut a = app(r#"{"theme":"nord","extra":[1,2]}"#);
    a.next_value();
    select(&mut a, 1, 3);
    a.next_value();
    let text = a.save_text().expect("a document prints");
    let reread: Value = serde_json::from_str(&text).unwrap();
    assert_eq!(reread["theme"].as_str(), Some("monokai"));
    assert_eq!(reread["c_git"].as_u64(), Some(244));
    assert_eq!(reread["extra"][1].as_u64(), Some(2));
    let b = App::new(load_config(Some(text)));
    assert_eq!(b.categories().len(), a.categories().len());
    for (x, y) in a.categories().iter().zip(b.categories().iter()) {
        assert_eq!(x.name, y.name);
        for (i, j) in x.items.iter().zip(y.items.iter()) {
            assert_eq!(i.key, j.key);
            let same = match (&i.kind, &j.kind) {
                (ItemKind::Color(p), ItemKind::Color(q)) => p == q,
                (ItemKind::Bool(p), ItemKind::Bool(q)) => p == q,
                (ItemKind::Number(p), ItemKind::Number(q)) => p == q,
                (ItemKind::Text(p), ItemKind::Text(q)) => p == q,
                (ItemKind::Theme(p), ItemKind::Theme(q)) => p == q,
                (ItemKind::Choice(p, r), ItemKind::Choice(q, s)) => p == q && r == s,
                _ => false,
            };
            assert!(same, "setting {}", i.key);
        }
    }
}

#[test]
fn save_outcome() {
    let mut a = app("{}");
    a.next_value();
    let m = a.save_finished(false);
    assert_eq!(m.text, " Failed to save config!");
    assert_eq!(m.style, Style::Fg(196));
    assert!(a.is_dirty());
    let m = a.save_finished(true);
    assert_eq!(m.text, " Config saved (rush reloaded)");
    assert_eq!(m.style, Style::Fg(82));
    assert!(!a.is_dirty());
}

#[test]
fn writable_documents() {
    assert!(app("{}").config_writable());
    assert!(app("null").config_writable());
    assert!(!app("[1]").config_writable());
    assert!(!app("3").config_writable());
    let mut a = app("null");
    a.apply_to_config();
    assert!(a.config().is_object());
    assert_eq!(a.config()["theme"].as_str(), Some("default"));
}

#[test]
fn key_presses() {
    let mut a = app("{}");
    assert!(matches!(a.step("J"), Effect::Redraw));
    assert_eq!(a.cat_index(), 1);
    assert!(matches!(a.step("j"), Effect::Redraw));
    assert_eq!(a.item_index(), 1);
    assert!(matches!(a.step("k"), Effect::Redraw));
    assert_eq!(a.item_index(), 0);
    assert!(matches!(a.step("l"), Effect::Redraw));
    assert!(matches!(current(&a), ItemKind::Color(3)));
    assert!(matches!(a.step("h"), Effect::Redraw));
    assert!(matches!(current(&a), ItemKind::Color(2)));
    match a.step("ENTER") {
        Effect::Ask(p) => assert_eq!(p.prompt, "Username (0-255): "),
        _ => panic!("a colour is asked for"),
    }
    assert!(matches!(a.step("W"), Effect::Save));
    assert!(matches!(a.step("RESIZE"), Effect::Resize));
    assert!(matches!(a.step("z"), Effect::Nothing));
    assert!(matches!(a.step("q"), Effect::Quit { ask_save: true }));
    assert!(matches!(a.step("K"), Effect::Redraw));
    assert_eq!(a.cat_index(), 0);
    let mut b = app("{}");
    assert!(matches!(b.step("ESC"), Effect::Quit { ask_save: false }));
}

#[test]
fn themes_come_back_after_six_steps() {
    let mut a = app(r#"{"theme":"nord"}"#);
    for k in 1..=12 {
        a.next_value();
        assert_eq!(theme_of(&a) == "nord", k % 6 == 0, "after {} steps", k);
    }
}

#[test]
fn colors_come_back_after_256_steps() {
    let mut a = app(r#"{"c_user":7}"#);
    select(&mut a, 1, 0);
    for k in 1..=256 {
        a.next_value();
        assert_eq!(matches!(current(&a), ItemKind::Color(7)), k == 256, "after {} steps", k);
    }
    for _ in 0..256 {
        a.prev_value();
    }
    assert!(matches!(current(&a), ItemKind::Color(7)));
}

#[test]
fn choices_and_flags_come_back_after_their_period() {
    let mut a = app("{}");
    select(&mut a, 5, 7); // history_dedup: three options
    for k in 1..=6 {
        a.next_value();
        assert_eq!(matches!(current(&a), ItemKind::Choice(_, ref c) if c == "smart"), k % 3 == 0);
    }
    select(&mut a, 5, 1);
    a.next_value();
    a.next_value();
    assert!(matches!(current(&a), ItemKind::Bool(true)));
}

#[test]
fn applying_twice_changes_nothing_more() {
    let mut a = app(r#"{"theme":"nord","x":[1,{"y":null}],"n":-3,"f":1.5}"#);
    a.apply_to_config();
    let once = a.config().clone();
    a.apply_to_config();
    assert_eq!(*a.config(), once);
}

#[test]
fn syncing_a_well_typed_document_keeps_it() {
    let mut a = app("{}");
    a.apply_to_config();
    let full = serde_json::to_string(a.config()).unwrap();
    let mut b = app(&full);
    let before = b.config().clone();
    b.apply_to_config();
    assert_eq!(*b.config(), before);
}

#[test]
fn other_keys_keep_their_values() {
    let text = r#"{"bookmarks":{"h":"~","deep":[1,[2,[3]]]},"list":[true,null,"s"],"none":null,"neg":-42,"frac":2.25,"theme":"nord"}"#;
    let original: Value = serde_json::from_str(text).unwrap();
    let mut a = app(text);
    a.next_value();
    a.prev_value();
    select(&mut a, 5, 1);
    a.next_value();
    assert_eq!(a.config()["auto_pair"].as_bool(), Some(false));
    for key in ["bookmarks", "list", "none", "neg", "frac"] {
        assert_eq!(a.config()[key], original[key], "key {}", key);
    }
    assert_eq!(a.config()["theme"].as_str(), Some("nord"));
}

#[test]
fn next_then_previous_gives_the_applied_document() {
    let mut a = app(r#"{"theme":"dracula","c_user":"x","keep":[1]}"#);
    let mut b = app(r#"{"theme":"dracula","c_user":"x","keep":[1]}"#);
    b.apply_to_config();
    a.next_value();
    a.prev_value();
    assert_eq!(*a.config(), *b.config());
    assert_eq!(theme_of(&a), "dracula");
}

#[test]
fn selection_queries() {
    let mut a = app("{}");
    assert!(a.has_selection());
    assert!(a.edit_cycles()); // the theme cycles
    assert!(a.can_step_down());
    assert!(a.can_step_up());
    select(&mut a, 6, 0);
    assert!(!a.edit_cycles()); // a text is asked for
    assert!(a.can_render());
}

#[test]
fn saved_text_is_the_pretty_print_of_the_synced_document() {
    let mut a = app(r#"{"x":[1,{"y":null}],"n":-3,"f":1.5}"#);
    a.next_value();
    let text = a.save_text().unwrap();
    assert_eq!(text, serde_json::to_string_pretty(a.config()).unwrap());
    let reread: Value = serde_json::from_str(&text).unwrap();
    assert_eq!(reread, *a.config());
}
