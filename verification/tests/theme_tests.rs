use crush::theme::{get_theme_color, theme_name, theme_position, THEME_COUNT};

#[test]
fn theme_colors() {
    assert_eq!(get_theme_color("solarized", "c_user"), 136);
    assert_eq!(get_theme_color("solarized", "c_nick"), 33);
    assert_eq!(get_theme_color("dracula", "c_host"), 212);
    assert_eq!(get_theme_color("dracula", "c_file"), 248);
    assert_eq!(get_theme_color("gruvbox", "c_nick"), 108);
    assert_eq!(get_theme_color("nord", "c_stamp"), 246);
    assert_eq!(get_theme_color("nord", "c_git"), 139);
    assert_eq!(get_theme_color("monokai", "c_prompt"), 197);
    assert_eq!(get_theme_color("monokai", "c_cwd"), 186);
    assert_eq!(get_theme_color("default", "c_cmd"), 48);
    assert_eq!(get_theme_color("default", "c_prompt"), 208);
    assert_eq!(get_theme_color("default", "anything"), 240);
    assert_eq!(get_theme_color("unknown", "c_git"), 243);
    assert_eq!(get_theme_color("", "c_user"), 2);
}

#[test]
fn theme_names_in_order() {
    let names: Vec<&str> = (0..THEME_COUNT).map(theme_name).collect();
    assert_eq!(names, vec!["default", "solarized", "dracula", "gruvbox", "nord", "monokai"]);
    for (i, n) in names.iter().enumerate() {
        assert_eq!(theme_position(n), i);
    }
    assert_eq!(theme_position("custom"), 0);
}
