use crush::json::load_config;
use crush::model::{bool_item, build_categories, color_item, item, num_item, text_item, Category, ItemKind};
use serde_json::Value;

fn config(text: &str) -> Value {
    load_config(Some(text.to_string()))
}

fn find<'a>(cats: &'a [Category], key: &str) -> &'a ItemKind {
    for c in cats {
        for i in &c.items {
            if i.key == key {
                return &i.kind;
            }
        }
    }
    panic!("no setting {}", key);
}

#[test]
fn defaults_from_empty_document() {
    let cats = build_categories(&config("{}"));
    let names: Vec<&str> = cats.iter().map(|c| c.name.as_str()).collect();
    assert_eq!(
        names,
        vec!["Theme", "Prompt Colors", "Syntax Colors", "Tab Colors", "Completion", "Behavior", "Paths"]
    );
    let counts: Vec<usize> = cats.iter().map(|c| c.items.len()).collect();
    assert_eq!(counts, vec![1, 8, 8, 5, 4, 8, 1]);
    assert!(matches!(find(&cats, "theme"), ItemKind::Theme(t) if t == "default"));
    assert!(matches!(find(&cats, "c_user"), ItemKind::Color(2)));
    assert!(matches!(find(&cats, "c_prompt"), ItemKind::Color(208)));
    assert!(matches!(find(&cats, "c_file"), ItemKind::Color(7)));
    assert!(matches!(find(&cats, "completion_fuzzy"), ItemKind::Bool(false)));
    assert!(matches!(find(&cats, "auto_pair"), ItemKind::Bool(true)));
    assert!(matches!(find(&cats, "completion_limit"), ItemKind::Number(10)));
    assert!(matches!(find(&cats, "session_autosave"), ItemKind::Number(0)));
    assert!(matches!(find(&cats, "file_manager"), ItemKind::Text(t) if t == "rtfm"));
    match find(&cats, "history_dedup") {
        ItemKind::Choice(o, c) => {
            assert_eq!(o, &vec!["off".to_string(), "full".to_string(), "smart".to_string()]);
            assert_eq!(c, "smart");
        }
        _ => panic!("history_dedup is a choice"),
    }
    assert_eq!(cats[1].items[0].label, "Username");
    assert_eq!(cats[5].items[5].label, "Slow cmd warn (s)");
}

#[test]
fn values_read_from_document() {
    let cats = build_categories(&config(
        r#"{"theme":"nord","c_user":100,"c_host":300,"c_cwd":-5,"c_git":"red",
            "completion_fuzzy":true,"completion_limit":25,"file_manager":"ranger",
            "history_dedup":"full","auto_pair":1,"show_tips":false,"session_autosave":2.5}"#,
    ));
    assert!(matches!(find(&cats, "theme"), ItemKind::Theme(t) if t == "nord"));
    assert!(matches!(find(&cats, "c_user"), ItemKind::Color(100)));
    // a colour above 255 is taken modulo 256
    assert!(matches!(find(&cats, "c_host"), ItemKind::Color(44)));
    // negative numbers and strings fall back to the default
    assert!(matches!(find(&cats, "c_cwd"), ItemKind::Color(81)));
    assert!(matches!(find(&cats, "c_git"), ItemKind::Color(243)));
    assert!(matches!(find(&cats, "completion_fuzzy"), ItemKind::Bool(true)));
    assert!(matches!(find(&cats, "auto_pair"), ItemKind::Bool(true)));
    assert!(matches!(find(&cats, "show_tips"), ItemKind::Bool(false)));
    assert!(matches!(find(&cats, "completion_limit"), ItemKind::Number(25)));
    assert!(matches!(find(&cats, "session_autosave"), ItemKind::Number(0)));
    assert!(matches!(find(&cats, "file_manager"), ItemKind::Text(t) if t == "ranger"));
    assert!(matches!(find(&cats, "history_dedup"), ItemKind::Choice(_, c) if c == "full"));
}

#[test]
fn non_object_document_reads_defaults() {
    let cats = build_categories(&config("[1, 2, 3]"));
    assert!(matches!(find(&cats, "theme"), ItemKind::Theme(t) if t == "default"));
    assert!(matches!(find(&cats, "c_user"), ItemKind::Color(2)));
}

#[test]
fn item_builders() {
    let c = config(r#"{"a": 7, "b": true, "c": "x", "d": 18446744073709551615}"#);
    let i = item("k", "Label", ItemKind::Bool(true));
    assert_eq!(i.key, "k");
    assert_eq!(i.label, "Label");
    assert!(matches!(i.kind, ItemKind::Bool(true)));
    assert!(matches!(color_item(&c, "a", "A", 1).kind, ItemKind::Color(7)));
    assert!(matches!(color_item(&c, "zz", "A", 1).kind, ItemKind::Color(1)));
    assert!(matches!(color_item(&c, "d", "A", 1).kind, ItemKind::Color(255)));
    assert!(matches!(bool_item(&c, "b", "B", false).kind, ItemKind::Bool(true)));
    assert!(matches!(bool_item(&c, "a", "B", false).kind, ItemKind::Bool(false)));
    assert!(matches!(num_item(&c, "d", "D", 3).kind, ItemKind::Number(u64::MAX)));
    assert!(matches!(num_item(&c, "c", "D", 3).kind, ItemKind::Number(3)));
    assert!(matches!(text_item(&c, "c", "C", "dflt").kind, ItemKind::Text(ref t) if t == "x"));
    assert!(matches!(text_item(&c, "a", "C", "dflt").kind, ItemKind::Text(ref t) if t == "dflt"));
    let t = text_item(&c, "c", "C", "dflt");
    assert_eq!(t.key, "c");
    assert_eq!(t.label, "C");
}

#[test]
fn load_config_falls_back_to_empty_object() {
    let v = load_config(None);
    assert!(v.is_object());
    assert_eq!(v.as_object().unwrap().len(), 0);
    let v = load_config(Some("not json".to_string()));
    assert!(v.is_object());
    assert_eq!(v.as_object().unwrap().len(), 0);
    let v = load_config(Some(r#"{"x": 1}"#.to_string()));
    assert_eq!(v["x"].as_u64(), Some(1));
    let v = load_config(Some("null".to_string()));
    assert!(v.is_null());
}
