//! What the editor shows: the lines of its panes, as runs of text each drawn in
//! one style.
use vstd::prelude::*;
use vstd::utf8::{encode_utf8, encode_scalar, decode_utf8, is_char_boundary, encode_utf8_decode_utf8};
use crate::model::{Category, Item, ItemKind, KindView, ItemView, CategoryView, categories_view};
use crate::text::{decimal, pad_left, pad_right, u64_to_decimal, string_push, string_push_str};
use crate::theme::{theme_color, get_theme_color};

verus! {

/// How a run of text is drawn.
#[derive(Clone, Copy, Debug, PartialEq, Eq, Structural)]
pub enum Style {
    Plain,
    /// In the given foreground colour.
    Fg(u8),
    /// Bold, in the given foreground colour.
    BoldFg(u8),
    /// In reverse video.
    Reverse,
    Underline,
}

/// A run of text drawn in one style.
pub struct Span {
    pub text: String,
    pub style: Style,
}

pub struct SpanView {
    pub text: Seq<char>,
    pub style: Style,
}

impl View for Span {
    type V = SpanView;

    open spec fn view(&self) -> SpanView {
        SpanView { text: self.text@, style: self.style }
    }
}

pub open spec fn sv(text: Seq<char>, style: Style) -> SpanView {
    SpanView { text, style }
}

pub open spec fn line_view(l: Seq<Span>) -> Seq<SpanView> {
    l.map_values(|s: Span| s@)
}

pub open spec fn lines_view(ls: Seq<Vec<Span>>) -> Seq<Seq<SpanView>> {
    ls.map_values(|l: Vec<Span>| line_view(l@))
}

fn span(text: &str, style: Style) -> (r: Span)
    ensures
        r@ == sv(text@, style),
{
    Span { text: text.to_owned(), style }
}

/// Whether a text setting can be shown: a text longer than 30 bytes is cut after
/// its 27th byte, which must end a character.
pub open spec fn text_cut_ok(t: Seq<char>) -> bool {
    encode_utf8(t).len() > 30 ==> is_char_boundary(encode_utf8(t), 27)
}

/// How a text setting is shown: a text longer than 30 bytes is cut to its first
/// 27 bytes followed by "...".
pub open spec fn shown_text(t: Seq<char>) -> Seq<char> {
    if encode_utf8(t).len() > 30 {
        decode_utf8(encode_utf8(t).subrange(0, 27)) + "..."@
    } else {
        t
    }
}

proof fn lemma_encode_utf8_concat(a: Seq<char>, b: Seq<char>)
    ensures
        encode_utf8(a + b) == encode_utf8(a) + encode_utf8(b),
    decreases a.len(),
{
    if a.len() == 0 {
        assert(a + b =~= b);
        assert(encode_utf8(a) + encode_utf8(b) =~= encode_utf8(b));
    } else {
        assert((a + b).drop_first() =~= a.drop_first() + b);
        lemma_encode_utf8_concat(a.drop_first(), b);
        assert(encode_utf8(a + b) =~= encode_utf8(a) + encode_utf8(b));
    }
}

proof fn lemma_encode_utf8_single(c: char)
    ensures
        encode_utf8(seq![c]) == encode_scalar(c as u32),
{
    assert(seq![c].drop_first() =~= Seq::<char>::empty());
    assert(encode_utf8(Seq::<char>::empty()) == Seq::<u8>::empty());
    assert(encode_utf8(seq![c]) == encode_scalar(seq![c][0] as u32) + encode_utf8(seq![c].drop_first()));
    assert(encode_scalar(c as u32) + Seq::<u8>::empty() =~= encode_scalar(c as u32));
}

/// Whether the UTF-8 encoding of `t` is longer than 30 bytes.
fn longer_than_30_bytes(t: &str) -> (r: bool)
    ensures
        r == (encode_utf8(t@).len() > 30),
{
    let n = t.unicode_len();
    let mut i: usize = 0;
    let mut acc: usize = 0;
    while i < n && acc <= 30
        invariant
            n == t@.len(),
            i <= n,
            acc == encode_utf8(t@.take(i as int)).len(),
        decreases n - i,
    {
        let c = t.get_char(i);
        let v = c as u32;
        let w: usize = if v <= 0x7F {
            1
        } else if v <= 0x7FF {
            2
        } else if v <= 0xFFFF {
            3
        } else {
            4
        };
        proof {
            assert(t@.take(i + 1) =~= t@.take(i as int) + seq![c]);
            lemma_encode_utf8_concat(t@.take(i as int), seq![c]);
            lemma_encode_utf8_single(c);
            vstd::utf8::char_is_scalar(c);
        }
        acc = acc + w;
        i = i + 1;
    }
    proof {
        assert(t@ =~= t@.take(i as int) + t@.skip(i as int));
        lemma_encode_utf8_concat(t@.take(i as int), t@.skip(i as int));
        if i == n {
            assert(t@.take(i as int) =~= t@);
        }
    }
    acc > 30
}

/// Whether the text setting `t` can be shown (see `text_cut_ok`).
pub fn text_fits(t: &str) -> (r: bool)
    ensures
        r == text_cut_ok(t@),
{
    !longer_than_30_bytes(t) || t.is_char_boundary(27)
}

fn shown(t: &String) -> (r: String)
    requires
        text_cut_ok(t@),
    ensures
        r@ == shown_text(t@),
{
    let s = t.as_str();
    if longer_than_30_bytes(s) {
        let (head, _) = s.split_at(27);
        proof {
            encode_utf8_decode_utf8(head@);
        }
        let mut r = head.to_owned();
        string_push_str(&mut r, "...");
        r
    } else {
        t.clone()
    }
}

/// The spans that show the value of a setting.
pub open spec fn value_spans(k: KindView) -> Seq<SpanView> {
    match k {
        KindView::Color(c) => seq![
            sv("\u{2588}\u{2588}\u{2588}"@, Style::Fg(c)),
            sv(" "@ + pad_left(decimal(c as nat), 3), Style::Plain),
        ],
        KindView::Bool(b) => seq![
            if b {
                sv("YES"@, Style::Fg(82))
            } else {
                sv("NO"@, Style::Fg(196))
            },
        ],
        KindView::Number(n) => seq![sv(decimal(n as nat), Style::Plain)],
        KindView::Text(t) => seq![sv(shown_text(t), Style::Plain)],
        KindView::Theme(t) => seq![sv(t, Style::Fg(220))],
        KindView::Choice(_, c) => seq![sv(c, Style::Fg(81))],
    }
}

/// The line of a setting: its label padded to 18 characters (underlined when
/// selected), then its value between arrows when selected.
pub open spec fn item_line(it: ItemView, selected: bool) -> Seq<SpanView> {
    seq![
        sv("  "@, Style::Plain),
        sv(pad_right(it.label, 18), if selected { Style::Underline } else { Style::Plain }),
        sv(if selected { "\u{25C0} "@ } else { "  "@ }, Style::Plain),
    ] + value_spans(it.kind) + seq![sv(if selected { " \u{25B6}"@ } else { "  "@ }, Style::Plain)]
}

pub open spec fn rule_text() -> Seq<char> {
    Seq::new(40, |i: int| '\u{2500}')
}

/// The category's name in bold, a rule, and an empty line.
pub open spec fn header_lines(name: Seq<char>) -> Seq<Seq<SpanView>> {
    seq![seq![sv(name, Style::BoldFg(81))], seq![sv(rule_text(), Style::Fg(245))], seq![]]
}

/// One row of the palette: a swatch of each of 16 colours starting at `16 * row`.
pub open spec fn palette_row(row: int) -> Seq<SpanView> {
    seq![sv("  "@, Style::Plain)] + Seq::new(16, |c: int| sv("\u{2588}"@, Style::Fg((row * 16 + c) as u8)))
}

/// The preview of all 256 colours shown under a colour setting.
pub open spec fn palette_lines() -> Seq<Seq<SpanView>> {
    seq![seq![], seq![sv("Color palette:"@, Style::Fg(245))]] + Seq::new(16, |r: int| palette_row(r))
}

/// The preview of a prompt in the colours of theme `t`, shown under the theme
/// setting.
pub open spec fn theme_lines(t: Seq<char>) -> Seq<Seq<SpanView>> {
    seq![
        seq![],
        seq![sv("Theme: "@ + t, Style::Fg(220))],
        seq![],
        seq![
            sv("  "@, Style::Plain),
            sv("user"@, Style::Fg(theme_color(t, "c_user"@))),
            sv(" "@, Style::Plain),
            sv("@"@, Style::Fg(245)),
            sv(" "@, Style::Plain),
            sv("host"@, Style::Fg(theme_color(t, "c_host"@))),
        ],
        seq![
            sv("  "@, Style::Plain),
            sv("~/projects"@, Style::Fg(theme_color(t, "c_cwd"@))),
            sv(" "@, Style::Plain),
            sv("(main)"@, Style::Fg(theme_color(t, "c_git"@))),
        ],
        seq![
            sv("  "@, Style::Plain),
            sv(">"@, Style::Fg(theme_color(t, "c_prompt"@))),
            sv(" "@, Style::Plain),
            sv("ls -la | grep foo"@, Style::Fg(theme_color(t, "c_cmd"@))),
        ],
    ]
}

/// The preview shown under the selected setting, if any.
pub open spec fn preview_lines(cat: CategoryView, sel: int) -> Seq<Seq<SpanView>> {
    if 0 <= sel < cat.items.len() {
        match cat.items[sel].kind {
            KindView::Color(_) => palette_lines(),
            KindView::Theme(t) => theme_lines(t),
            _ => Seq::empty(),
        }
    } else {
        Seq::empty()
    }
}

/// The lines of the settings pane for category `cat` with setting `sel` selected.
pub open spec fn item_lines(cat: CategoryView, sel: int) -> Seq<Seq<SpanView>> {
    header_lines(cat.name) + Seq::new(cat.items.len(), |i: int| item_line(cat.items[i], i == sel))
        + preview_lines(cat, sel)
}

/// Whether every text setting of `cat` can be shown.
pub open spec fn texts_fit(cat: CategoryView) -> bool {
    forall|i: int| 0 <= i < cat.items.len() ==> (#[trigger] cat.items[i].kind matches KindView::Text(t) ==> text_cut_ok(t))
}


fn span_of(text: String, style: Style) -> (r: Span)
    ensures
        r@ == sv(text@, style),
{
    Span { text, style }
}

/// `s` padded with spaces on the right to `width` characters.
fn padded_right(s: &str, width: usize) -> (r: String)
    ensures
        r@ == pad_right(s@, width as nat),
{
    let n = s.unicode_len();
    let mut r = s.to_owned();
    let mut k: usize = n;
    while k < width
        invariant
            n == s@.len(),
            n <= k <= width || (n >= width && k == n),
            r@ == s@ + Seq::new((k - n) as nat, |i: int| ' '),
        decreases width - k,
    {
        string_push(&mut r, ' ');
        k = k + 1;
        assert(r@ =~= s@ + Seq::new((k - n) as nat, |i: int| ' '));
    }
    assert(n >= width ==> r@ =~= s@);
    r
}

/// `s` padded with spaces on the left to `width` characters.
fn padded_left(s: &str, width: usize) -> (r: String)
    ensures
        r@ == pad_left(s@, width as nat),
{
    let n = s.unicode_len();
    let mut r = String::new();
    let mut k: usize = n;
    while k < width
        invariant
            n == s@.len(),
            n <= k <= width || (n >= width && k == n),
            r@ == Seq::new((k - n) as nat, |i: int| ' '),
        decreases width - k,
    {
        string_push(&mut r, ' ');
        k = k + 1;
        assert(r@ =~= Seq::new((k - n) as nat, |i: int| ' '));
    }
    string_push_str(&mut r, s);
    assert(n >= width ==> r@ =~= s@);
    r
}

fn value_spans_of(k: &ItemKind) -> (r: Vec<Span>)
    requires
        k@ matches KindView::Text(t) ==> text_cut_ok(t),
    ensures
        line_view(r@) == value_spans(k@),
{
    let r = match k {
        ItemKind::Color(c) => {
            let mut tail = " ".to_owned();
            let d = u64_to_decimal(*c as u64);
            let p = padded_left(d.as_str(), 3);
            string_push_str(&mut tail, p.as_str());
            vec![span("\u{2588}\u{2588}\u{2588}", Style::Fg(*c)), span_of(tail, Style::Plain)]
        },
        ItemKind::Bool(b) => {
            if *b {
                vec![span("YES", Style::Fg(82))]
            } else {
                vec![span("NO", Style::Fg(196))]
            }
        },
        ItemKind::Number(n) => vec![span_of(u64_to_decimal(*n), Style::Plain)],
        ItemKind::Text(t) => vec![span_of(shown(t), Style::Plain)],
        ItemKind::Theme(t) => vec![span(t.as_str(), Style::Fg(220))],
        ItemKind::Choice(_, c) => vec![span(c.as_str(), Style::Fg(81))],
    };
    assert(line_view(r@) =~= value_spans(k@));
    r
}

fn item_line_of(it: &Item, selected: bool) -> (r: Vec<Span>)
    requires
        it@.kind matches KindView::Text(t) ==> text_cut_ok(t),
    ensures
        line_view(r@) == item_line(it@, selected),
{
    let label = padded_right(it.label.as_str(), 18);
    let mut r = vec![
        span("  ", Style::Plain),
        span_of(label, if selected { Style::Underline } else { Style::Plain }),
        span(if selected { "\u{25C0} " } else { "  " }, Style::Plain),
    ];
    let mut v = value_spans_of(&it.kind);
    r.append(&mut v);
    r.push(span(if selected { " \u{25B6}" } else { "  " }, Style::Plain));
    assert(line_view(r@) =~= item_line(it@, selected));
    r
}

fn push_line(lines: &mut Vec<Vec<Span>>, l: Vec<Span>)
    ensures
        lines_view(final(lines)@) == lines_view(old(lines)@).push(line_view(l@)),
{
    lines.push(l);
    assert(lines_view(lines@) =~= lines_view(old(lines)@).push(line_view(l@)));
}

fn rule() -> (r: String)
    ensures
        r@ == rule_text(),
{
    let mut r = String::new();
    let mut k: usize = 0;
    while k < 40
        invariant
            k <= 40,
            r@ == Seq::new(k as nat, |i: int| '\u{2500}'),
        decreases 40 - k,
    {
        string_push(&mut r, '\u{2500}');
        k = k + 1;
        assert(r@ =~= Seq::new(k as nat, |i: int| '\u{2500}'));
    }
    r
}

fn push_palette(lines: &mut Vec<Vec<Span>>)
    ensures
        lines_view(final(lines)@) == lines_view(old(lines)@) + palette_lines(),
{
    let e: Vec<Span> = Vec::new();
    assert(line_view(e@) =~= Seq::<SpanView>::empty());
    push_line(lines, e);
    let cp = vec![span("Color palette:", Style::Fg(245))];
    assert(line_view(cp@) =~= seq![sv("Color palette:"@, Style::Fg(245))]);
    push_line(lines, cp);
    let ghost base = lines_view(old(lines)@) + seq![seq![], seq![sv("Color palette:"@, Style::Fg(245))]];
    assert(lines_view(lines@) =~= base);
    let mut row: u8 = 0;
    while row < 16
        invariant
            row <= 16,
            lines_view(lines@) == base + Seq::new(row as nat, |r: int| palette_row(r)),
        decreases 16 - row,
    {
        let mut l = vec![span("  ", Style::Plain)];
        let mut col: u8 = 0;
        while col < 16
            invariant
                row < 16,
                col <= 16,
                line_view(l@) == seq![sv("  "@, Style::Plain)] + Seq::new(
                    col as nat,
                    |c: int| sv("\u{2588}"@, Style::Fg((row * 16 + c) as u8)),
                ),
            decreases 16 - col,
        {
            let c: u8 = row * 16 + col;
            let ghost before = line_view(l@);
            let sp = span("\u{2588}", Style::Fg(c));
            l.push(sp);
            assert(line_view(l@) =~= before.push(sp@));
            assert(c as int == row * 16 + col);
            col = col + 1;
            assert(line_view(l@) =~= seq![sv("  "@, Style::Plain)] + Seq::new(
                col as nat,
                |c: int| sv("\u{2588}"@, Style::Fg((row * 16 + c) as u8)),
            ));
        }
        assert(line_view(l@) =~= palette_row(row as int));
        push_line(lines, l);
        row = row + 1;
        assert(lines_view(lines@) =~= base + Seq::new(row as nat, |r: int| palette_row(r)));
    }
    assert(lines_view(lines@) =~= lines_view(old(lines)@) + palette_lines());
}

fn push_theme_preview(lines: &mut Vec<Vec<Span>>, t: &String)
    ensures
        lines_view(final(lines)@) == lines_view(old(lines)@) + theme_lines(t@),
{
    let mut title = "Theme: ".to_owned();
    string_push_str(&mut title, t.as_str());
    let th = t.as_str();
    let l0: Vec<Span> = Vec::new();
    let l1 = vec![span_of(title, Style::Fg(220))];
    let l2: Vec<Span> = Vec::new();
    let l3 = vec![
        span("  ", Style::Plain),
        span("user", Style::Fg(get_theme_color(th, "c_user"))),
        span(" ", Style::Plain),
        span("@", Style::Fg(245)),
        span(" ", Style::Plain),
        span("host", Style::Fg(get_theme_color(th, "c_host"))),
    ];
    let l4 = vec![
        span("  ", Style::Plain),
        span("~/projects", Style::Fg(get_theme_color(th, "c_cwd"))),
        span(" ", Style::Plain),
        span("(main)", Style::Fg(get_theme_color(th, "c_git"))),
    ];
    let l5 = vec![
        span("  ", Style::Plain),
        span(">", Style::Fg(get_theme_color(th, "c_prompt"))),
        span(" ", Style::Plain),
        span("ls -la | grep foo", Style::Fg(get_theme_color(th, "c_cmd"))),
    ];
    let ghost tl = theme_lines(t@);
    assert(line_view(l0@) =~= tl[0]);
    assert(line_view(l1@) =~= tl[1]);
    assert(line_view(l2@) =~= tl[2]);
    assert(line_view(l3@) =~= tl[3]);
    assert(line_view(l4@) =~= tl[4]);
    assert(line_view(l5@) =~= tl[5]);
    push_line(lines, l0);
    push_line(lines, l1);
    push_line(lines, l2);
    push_line(lines, l3);
    push_line(lines, l4);
    push_line(lines, l5);
    assert(lines_view(lines@) =~= lines_view(old(lines)@) + tl);
}

/// The lines of the settings pane for category `cat` with setting `sel` selected.
pub fn render_item_lines(cat: &Category, sel: usize) -> (r: Vec<Vec<Span>>)
    requires
        texts_fit(cat@),
    ensures
        lines_view(r@) == item_lines(cat@, sel as int),
{
    let mut lines: Vec<Vec<Span>> = Vec::new();
    let h0 = vec![span(cat.name.as_str(), Style::BoldFg(81))];
    let h1 = vec![span_of(rule(), Style::Fg(245))];
    let h2: Vec<Span> = Vec::new();
    assert(line_view(h0@) =~= header_lines(cat@.name)[0]);
    assert(line_view(h1@) =~= header_lines(cat@.name)[1]);
    assert(line_view(h2@) =~= header_lines(cat@.name)[2]);
    push_line(&mut lines, h0);
    push_line(&mut lines, h1);
    push_line(&mut lines, h2);
    let ghost head = header_lines(cat@.name);
    assert(lines_view(lines@) =~= head);
    let ghost its = cat@.items;
    let n = cat.items.len();
    let mut i: usize = 0;
    while i < n
        invariant
            n == cat.items.len(),
            its == cat@.items,
            texts_fit(cat@),
            i <= n,
            lines_view(lines@) == head + Seq::new(i as nat, |k: int| item_line(its[k], k == sel)),
        decreases n - i,
    {
        assert(its[i as int] == cat.items@[i as int]@);
        let l = item_line_of(&cat.items[i], i == sel);
        push_line(&mut lines, l);
        i = i + 1;
        assert(lines_view(lines@) =~= head + Seq::new(i as nat, |k: int| item_line(its[k], k == sel)));
    }
    let ghost body = lines_view(lines@);
    if sel < n {
        assert(its[sel as int] == cat.items@[sel as int]@);
        match &cat.items[sel].kind {
            ItemKind::Color(_) => push_palette(&mut lines),
            ItemKind::Theme(t) => push_theme_preview(&mut lines, t),
            _ => {
                assert(lines_view(lines@) =~= body + preview_lines(cat@, sel as int));
            },
        }
    } else {
        assert(lines_view(lines@) =~= body + preview_lines(cat@, sel as int));
    }
    assert(lines_view(lines@) =~= item_lines(cat@, sel as int));
    lines
}


/// The lines of the category pane: each name between spaces, the selected one in
/// reverse video.
pub open spec fn category_lines(cats: Seq<CategoryView>, sel: int) -> Seq<Seq<SpanView>> {
    Seq::new(
        cats.len(),
        |i: int| seq![sv(" "@ + cats[i].name + " "@, if i == sel { Style::Reverse } else { Style::Plain })],
    )
}

pub fn render_category_lines(cats: &Vec<Category>, sel: usize) -> (r: Vec<Vec<Span>>)
    ensures
        lines_view(r@) == category_lines(categories_view(cats@), sel as int),
{
    let ghost cv = categories_view(cats@);
    let mut lines: Vec<Vec<Span>> = Vec::new();
    let mut i: usize = 0;
    assert(lines_view(lines@) =~= Seq::<Seq<SpanView>>::empty());
    while i < cats.len()
        invariant
            i <= cats.len(),
            cv == categories_view(cats@),
            lines_view(lines@) == category_lines(cv, sel as int).take(i as int),
        decreases cats.len() - i,
    {
        let mut t = " ".to_owned();
        string_push_str(&mut t, cats[i].name.as_str());
        string_push_str(&mut t, " ");
        let l = vec![span_of(t, if i == sel { Style::Reverse } else { Style::Plain })];
        assert(line_view(l@) =~= category_lines(cv, sel as int)[i as int]);
        push_line(&mut lines, l);
        i = i + 1;
        assert(lines_view(lines@) =~= category_lines(cv, sel as int).take(i as int));
    }
    assert(category_lines(cv, sel as int).take(i as int) =~= category_lines(cv, sel as int));
    lines
}

/// The top bar: the program's title, marked when a setting changed since the
/// last save.
pub open spec fn title_text(dirty: bool) -> Seq<char> {
    if dirty {
        " crush - Rush Configuration"@ + " [modified]"@
    } else {
        " crush - Rush Configuration"@
    }
}

pub fn render_title(dirty: bool) -> (r: String)
    ensures
        r@ == title_text(dirty),
{
    let mut t = " crush - Rush Configuration".to_owned();
    if dirty {
        string_push_str(&mut t, " [modified]");
    }
    t
}

/// The status bar: the position of the selected setting in its category, the
/// number of settings there, and the keys.
pub open spec fn status_text(pos: nat, count: nat) -> Seq<char> {
    " "@ + decimal(pos) + "/"@ + decimal(count)
        + " | j/k:item  J/K:category  h/l:change  Enter:edit  W:save  q:quit"@
}

pub fn render_status(pos: u64, count: u64) -> (r: String)
    ensures
        r@ == status_text(pos as nat, count as nat),
{
    let mut t = " ".to_owned();
    let a = u64_to_decimal(pos);
    string_push_str(&mut t, a.as_str());
    string_push_str(&mut t, "/");
    let b = u64_to_decimal(count);
    string_push_str(&mut t, b.as_str());
    string_push_str(&mut t, " | j/k:item  J/K:category  h/l:change  Enter:edit  W:save  q:quit");
    t
}

/// Everything the editor shows: the top bar, the category pane, the settings
/// pane (none when it is to stay as it was) and the status bar.
pub struct Screen {
    pub title: String,
    pub categories: Vec<Vec<Span>>,
    pub items: Option<Vec<Vec<Span>>>,
    pub status: String,
}

} // verus!
