use crush::app::App;
use crush::json::load_config;
use crush::render::{render_status, render_title, text_fits, Span, Style};

fn app(text: &str) -> App {
    App::new(load_config(Some(text.to_string())))
}

fn join(line: &[Span]) -> String {
    line.iter().map(|s| s.text.as_str()).collect()
}

#[test]
fn title_and_status() {
    assert_eq!(render_title(false), " crush - Rush Configuration");
    assert_eq!(render_title(true), " crush - Rush Configuration [modified]");
    assert_eq!(
        render_status(3, 8),
        " 3/8 | j/k:item  J/K:category  h/l:change  Enter:edit  W:save  q:quit"
    );
}

#[test]
fn screen_of_theme_category() {
    let a = app(r#"{"theme":"nord"}"#);
    assert!(a.can_render());
    let s = a.render();
    assert_eq!(s.title, " crush - Rush Configuration");
    assert_eq!(s.status, " 1/1 | j/k:item  J/K:category  h/l:change  Enter:edit  W:save  q:quit");
    assert_eq!(s.categories.len(), 7);
    assert_eq!(s.categories[0][0].text, " Theme ");
    assert_eq!(s.categories[0][0].style, Style::Reverse);
    assert_eq!(s.categories[1][0].text, " Prompt Colors ");
    assert_eq!(s.categories[1][0].style, Style::Plain);
    let l = s.items.as_ref().unwrap();
    assert_eq!(l.len(), 3 + 1 + 6);
    assert_eq!(l[0][0].text, "Theme");
    assert_eq!(l[0][0].style, Style::BoldFg(81));
    assert_eq!(l[1][0].text, "\u{2500}".repeat(40));
    assert_eq!(l[1][0].style, Style::Fg(245));
    assert!(l[2].is_empty());
    assert_eq!(join(&l[3]), "  Theme             \u{25C0} nord \u{25B6}");
    assert_eq!(l[3][1].style, Style::Underline);
    assert_eq!(l[3][3].style, Style::Fg(220));
    assert_eq!(join(&l[5]), "Theme: nord");
    assert_eq!(join(&l[7]), "  user @ host");
    assert_eq!(l[7][1].style, Style::Fg(110));
    assert_eq!(l[7][5].style, Style::Fg(150));
    assert_eq!(join(&l[8]), "  ~/projects (main)");
    assert_eq!(l[8][3].style, Style::Fg(139));
    assert_eq!(join(&l[9]), "  > ls -la | grep foo");
    assert_eq!(l[9][1].style, Style::Fg(110));
    assert_eq!(l[9][3].style, Style::Fg(150));
}

#[test]
fn color_category_with_palette() {
    let mut a = app(r#"{"c_host":7}"#);
    a.next_category();
    a.move_down();
    let l = a.render_items().unwrap();
    assert_eq!(l.len(), 3 + 8 + 2 + 16);
    assert_eq!(join(&l[3]), "  Username            \u{2588}\u{2588}\u{2588}   2  ");
    assert_eq!(join(&l[4]), "  Hostname          \u{25C0} \u{2588}\u{2588}\u{2588}   7 \u{25B6}");
    assert_eq!(l[4][3].style, Style::Fg(7));
    assert_eq!(join(&l[6]), "  Git branch          \u{2588}\u{2588}\u{2588} 243  ");
    assert!(l[11].is_empty());
    assert_eq!(l[12][0].text, "Color palette:");
    for row in 0..16usize {
        let line = &l[13 + row];
        assert_eq!(line.len(), 17);
        assert_eq!(line[0].text, "  ");
        for col in 0..16usize {
            assert_eq!(line[1 + col].style, Style::Fg((row * 16 + col) as u8));
        }
    }
    let s = a.render();
    assert_eq!(s.status, " 2/8 | j/k:item  J/K:category  h/l:change  Enter:edit  W:save  q:quit");
}

#[test]
fn flags_numbers_and_choices_shown() {
    let mut a = app("{}");
    for _ in 0..4 {
        a.next_category();
    }
    let l = a.render_items().unwrap();
    assert_eq!(l.len(), 3 + 4);
    assert_eq!(join(&l[3]), "  Fuzzy match       \u{25C0} NO \u{25B6}");
    assert_eq!(l[3][3].style, Style::Fg(196));
    assert_eq!(join(&l[5]), "  Max results         10  ");
    a.next_category();
    let l = a.render_items().unwrap();
    assert_eq!(join(&l[4]), "  Auto pair           YES  ");
    assert_eq!(l[4][3].style, Style::Fg(82));
    assert_eq!(join(&l[10]), "  History dedup       smart  ");
    assert_eq!(l[10][3].style, Style::Fg(81));
}

#[test]
fn long_texts_are_cut() {
    let long = "a".repeat(40);
    let mut a = app(&format!(r#"{{"file_manager":"{}"}}"#, long));
    for _ in 0..6 {
        a.next_category();
    }
    let l = a.render_items().unwrap();
    assert_eq!(l[3][3].text, format!("{}...", "a".repeat(27)));
    assert_eq!(l.len(), 4);
    let mut b = app(&format!(r#"{{"file_manager":"{}"}}"#, "b".repeat(30)));
    for _ in 0..6 {
        b.next_category();
    }
    assert_eq!(b.render_items().unwrap()[3][3].text, "b".repeat(30));
}

#[test]
fn cutting_needs_a_character_boundary() {
    assert!(text_fits("short"));
    assert!(text_fits(&"x".repeat(31)));
    // 26 ASCII bytes then a two-byte character spanning bytes 26 and 27
    let bad = format!("{}é{}", "x".repeat(26), "y".repeat(10));
    assert!(!text_fits(&bad));
    let good = format!("{}é{}", "x".repeat(25), "y".repeat(10));
    assert!(text_fits(&good));
    // 15 two-byte characters: 30 bytes, not cut
    assert!(text_fits(&"é".repeat(15)));
    assert!(!text_fits(&"é".repeat(16)));
    let mut a = app(&format!(r#"{{"file_manager":"{}"}}"#, good));
    for _ in 0..6 {
        a.next_category();
    }
    assert!(a.can_render());
    assert_eq!(a.render_items().unwrap()[3][3].text, format!("{}é...", "x".repeat(25)));
    let mut b = app(&format!(r#"{{"file_manager":"{}"}}"#, bad));
    for _ in 0..6 {
        b.next_category();
    }
    assert!(!b.can_render());
}
