use crush::ui::{confirms_save, key_action, layout, save_question, should_signal_parent, Action};
use crush::render::Style;

#[test]
fn keys_to_actions() {
    for (k, a) in [
        ("q", Action::Quit), ("ESC", Action::Quit),
        ("j", Action::MoveDown), ("DOWN", Action::MoveDown),
        ("k", Action::MoveUp), ("UP", Action::MoveUp),
        ("J", Action::NextCategory), ("PgDOWN", Action::NextCategory),
        ("K", Action::PrevCategory), ("PgUP", Action::PrevCategory),
        ("l", Action::NextValue), ("RIGHT", Action::NextValue), ("TAB", Action::NextValue),
        ("h", Action::PrevValue), ("LEFT", Action::PrevValue), ("S-TAB", Action::PrevValue),
        ("ENTER", Action::Edit), ("W", Action::Save), ("RESIZE", Action::Resize),
        ("w", Action::Ignore), ("x", Action::Ignore), ("", Action::Ignore), ("Q", Action::Ignore),
    ] {
        assert_eq!(key_action(k), a, "key {:?}", k);
    }
}

#[test]
fn save_answers() {
    assert!(confirms_save("y"));
    assert!(confirms_save("Y"));
    assert!(!confirms_save("n"));
    assert!(!confirms_save("yes"));
    assert!(!confirms_save(""));
    let q = save_question();
    assert_eq!(q.text, " Save changes? (y/n)");
    assert_eq!(q.style, Style::Fg(220));
}

#[test]
fn parent_signal() {
    assert!(!should_signal_parent(0));
    assert!(!should_signal_parent(1));
    assert!(should_signal_parent(2));
    assert!(should_signal_parent(4242));
    assert!(!should_signal_parent(-1));
}

#[test]
fn pane_layout() {
    let l = layout(100, 40);
    assert_eq!((l.top.x, l.top.y, l.top.w, l.top.h, l.top.fg, l.top.bg), (1, 1, 100, 1, 0, 236));
    assert_eq!((l.left.x, l.left.y, l.left.w, l.left.h, l.left.fg, l.left.bg), (2, 3, 24, 36, 255, 0));
    assert_eq!((l.right.x, l.right.y, l.right.w, l.right.h, l.right.fg, l.right.bg), (28, 3, 71, 36, 252, 0));
    assert_eq!((l.status.x, l.status.y, l.status.w, l.status.h, l.status.fg, l.status.bg), (1, 40, 100, 1, 252, 236));
    let small = layout(20, 4);
    assert_eq!(small.right.w, 0);
    assert_eq!(small.left.h, 0);
    assert_eq!(layout(29, 10).right.w, 0);
    assert_eq!(layout(30, 10).right.w, 1);
}
