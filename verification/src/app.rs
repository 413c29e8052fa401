//! The editor's state and what each command does to it: moving through the
//! settings, changing the selected one, and writing all of them into the
//! configuration document.
use vstd::prelude::*;
use serde_json::Value;
use crate::json::{
    FieldView, JsonView, json_view, json_read, json_text, keyed, obj_map, doc_fields, set_key, json_set_u8,
    json_set_u64, json_set_bool, json_set_text, json_pretty, json_is_keyed,
};
use crate::ui::{Action, key_action, key_action_spec};
use crate::model::{
    Category, ItemKind, KindView, ItemView, CategoryView, categories_view, items_view,
    strings_view, categories_from, build_categories,
};
use crate::text::{parse_unsigned, parse_unsigned_spec, u64_to_decimal, decimal, string_push_str};
use crate::theme::{themes, theme_name, theme_position, position_or_zero, THEME_COUNT};
use crate::laws::{shaped, same_kind, lemma_with_kind_shaped, lemma_changes_keep_kind, lemma_read_settings_shaped};
use crate::render::{
    Screen, Span, Style, lines_view, item_lines, category_lines, title_text, status_text, texts_fit,
    render_item_lines, render_category_lines, render_title, render_status, sv,
};

verus! {

/// The value a setting is written to the document as.
pub open spec fn item_field(k: KindView) -> FieldView {
    match k {
        KindView::Color(c) => FieldView::Unsigned(c as u64),
        KindView::Bool(b) => FieldView::Flag(b),
        KindView::Number(n) => FieldView::Unsigned(n),
        KindView::Text(t) => FieldView::Text(t),
        KindView::Theme(t) => FieldView::Text(t),
        KindView::Choice(_, c) => FieldView::Text(c),
    }
}

/// All settings, category after category.
pub open spec fn all_items(cats: Seq<CategoryView>) -> Seq<ItemView>
    decreases cats.len(),
{
    if cats.len() == 0 {
        Seq::empty()
    } else {
        all_items(cats.drop_last()) + cats.last().items
    }
}

/// The JSON value a setting is written to the document as.
pub open spec fn item_json(k: KindView) -> JsonView {
    match k {
        KindView::Color(c) => JsonView::Unsigned(c as u64),
        KindView::Bool(b) => JsonView::Bool(b),
        KindView::Number(n) => JsonView::Unsigned(n),
        KindView::Text(t) => JsonView::Str(t),
        KindView::Theme(t) => JsonView::Str(t),
        KindView::Choice(_, c) => JsonView::Str(c),
    }
}

/// The keys of an object after writing each of `items`, in order, under its key.
pub open spec fn write_map(m: Map<Seq<char>, JsonView>, items: Seq<ItemView>) -> Map<Seq<char>, JsonView>
    decreases items.len(),
{
    if items.len() == 0 {
        m
    } else {
        write_map(m, items.drop_last()).insert(items.last().key, item_json(items.last().kind))
    }
}

/// The document after writing each of `items`, in order, under its key: an
/// object with every other key of the document kept as it was (a null document
/// counting as an empty object); the document itself when there is nothing to
/// write.
pub open spec fn write_doc(d: JsonView, items: Seq<ItemView>) -> JsonView {
    if items.len() == 0 {
        d
    } else {
        JsonView::Object(write_map(obj_map(d), items))
    }
}

/// Whether a value can be cycled: a choice needs at least one option.
pub open spec fn kind_ok(k: KindView) -> bool {
    match k {
        KindView::Choice(o, _) => o.len() > 0,
        _ => true,
    }
}

/// The value after "next value": a colour one up (wrapping), a boolean flipped, a
/// number one up, a theme or choice the one after the current (the first one
/// counting as current when the current is none of them), a text unchanged.
pub open spec fn next_kind(k: KindView) -> KindView {
    match k {
        KindView::Color(c) => KindView::Color(((c + 1) % 256) as u8),
        KindView::Bool(b) => KindView::Bool(!b),
        KindView::Number(n) => KindView::Number((n + 1) as u64),
        KindView::Theme(t) => KindView::Theme(themes()[(position_or_zero(themes(), t) + 1) % 6]),
        KindView::Choice(o, c) => KindView::Choice(o, o[(position_or_zero(o, c) + 1) % (o.len() as int)]),
        KindView::Text(t) => KindView::Text(t),
    }
}

/// The value after "previous value": a colour one down (wrapping), a boolean
/// flipped, a number one down (stopping at 0), a theme or choice the one before
/// the current (the first one counting as current when the current is none of
/// them), a text unchanged.
pub open spec fn prev_kind(k: KindView) -> KindView {
    match k {
        KindView::Color(c) => KindView::Color(((c + 255) % 256) as u8),
        KindView::Bool(b) => KindView::Bool(!b),
        KindView::Number(n) => KindView::Number(if n == 0 { 0 } else { (n - 1) as u64 }),
        KindView::Theme(t) => KindView::Theme(themes()[(position_or_zero(themes(), t) + 5) % 6]),
        KindView::Choice(o, c) => KindView::Choice(
            o,
            o[(position_or_zero(o, c) + o.len() - 1) % (o.len() as int)],
        ),
        KindView::Text(t) => KindView::Text(t),
    }
}

/// Whether cycling a value of this kind marks the settings as modified.
pub open spec fn cycles(k: KindView) -> bool {
    !(k is Text)
}

/// The settings with the value of item `ii` of category `ci` replaced by `k`.
pub open spec fn with_kind(cats: Seq<CategoryView>, ci: int, ii: int, k: KindView) -> Seq<CategoryView> {
    cats.update(
        ci,
        CategoryView {
            name: cats[ci].name,
            items: cats[ci].items.update(
                ii,
                ItemView { key: cats[ci].items[ii].key, label: cats[ci].items[ii].label, kind: k },
            ),
        },
    )
}

/// Whether editing a setting of this kind asks for a new value (rather than
/// cycling it).
pub open spec fn asks_value(k: KindView) -> bool {
    k is Text || k is Number || k is Color
}

/// What editing `it` asks with, and the text offered to start from: the label and
/// ": " with the current text or number, or the label and " (0-255): " with the
/// current colour.
pub open spec fn edit_request(it: ItemView) -> (Seq<char>, Seq<char>) {
    match it.kind {
        KindView::Text(t) => (it.label + ": "@, t),
        KindView::Number(n) => (it.label + ": "@, decimal(n as nat)),
        KindView::Color(c) => (it.label + " (0-255): "@, decimal(c as nat)),
        _ => (it.label, Seq::empty()),
    }
}

/// The value after the user answered `answer` when editing: a non-empty text
/// replaces a text; a number or colour takes the answer when it parses as one,
/// else stays.
pub open spec fn edited_kind(k: KindView, answer: Seq<char>) -> KindView {
    match k {
        KindView::Text(t) => KindView::Text(if answer.len() > 0 { answer } else { t }),
        KindView::Number(n) => KindView::Number(
            match parse_unsigned_spec(answer, u64::MAX as nat) {
                Some(v) => v as u64,
                None => n,
            },
        ),
        KindView::Color(c) => KindView::Color(
            match parse_unsigned_spec(answer, 255) {
                Some(v) => v as u8,
                None => c,
            },
        ),
        _ => k,
    }
}

/// Whether the answer changed the setting (and so marks the settings as modified).
pub open spec fn answer_taken(k: KindView, answer: Seq<char>) -> bool {
    match k {
        KindView::Text(_) => answer.len() > 0,
        KindView::Number(_) => parse_unsigned_spec(answer, u64::MAX as nat) is Some,
        KindView::Color(_) => parse_unsigned_spec(answer, 255) is Some,
        _ => false,
    }
}

/// What the editor asks the user when a setting is edited.
pub struct EditPrompt {
    /// The question.
    pub prompt: String,
    /// The text offered as the answer to start from.
    pub initial: String,
}

/// What the terminal front end is to do after a key press.
pub enum Effect {
    /// Leave; first ask whether to save when `ask_save` holds.
    Quit { ask_save: bool },
    /// Draw the screen again.
    Redraw,
    /// Ask the user for a new value, then finish the edit with the answer.
    Ask(EditPrompt),
    /// Save the configuration.
    Save,
    /// Lay the panes out again for the new terminal size.
    Resize,
    /// Nothing.
    Nothing,
}

/// The state of the editor.
pub struct AppView {
    /// The configuration document.
    pub doc: JsonView,
    pub categories: Seq<CategoryView>,
    /// The selected category.
    pub cat_index: int,
    /// The selected setting within the selected category.
    pub item_index: int,
    /// Whether a setting changed since the last save.
    pub dirty: bool,
}

impl AppView {
    /// The selection points at a setting, every category has a setting, and every
    /// choice has an option.
    pub open spec fn wf(self) -> bool {
        &&& 0 <= self.cat_index < self.categories.len()
        &&& forall|i: int| 0 <= i < self.categories.len() ==> #[trigger] self.categories[i].items.len() > 0
        &&& 0 <= self.item_index < self.categories[self.cat_index].items.len()
        &&& forall|i: int, j: int|
            0 <= i < self.categories.len() && 0 <= j < self.categories[i].items.len()
                ==> kind_ok(#[trigger] self.categories[i].items[j].kind)
    }

    /// Whether the selected category exists.
    pub open spec fn has_category(self) -> bool {
        0 <= self.cat_index < self.categories.len()
    }

    /// Whether the selected setting exists.
    pub open spec fn selected(self) -> bool {
        self.has_category() && 0 <= self.item_index < self.categories[self.cat_index].items.len()
    }

    /// The selected setting.
    pub open spec fn current(self) -> ItemView {
        self.categories[self.cat_index].items[self.item_index]
    }

    /// The keys of the document, each with what the settings logic reads there.
    pub open spec fn fields(self) -> Map<Seq<char>, FieldView> {
        doc_fields(self.doc)
    }

    /// Whether the document can be written to by key.
    pub open spec fn keyed(self) -> bool {
        keyed(self.doc)
    }

    /// The document after writing every setting into it.
    pub open spec fn applied(self) -> JsonView {
        write_doc(self.doc, all_items(self.categories))
    }

    /// The state after "move down".
    pub open spec fn moved_down(self) -> AppView {
        AppView {
            item_index: if self.has_category() && self.item_index + 1 < self.categories[self.cat_index].items.len() {
                self.item_index + 1
            } else {
                self.item_index
            },
            ..self
        }
    }

    /// The state after "move up".
    pub open spec fn moved_up(self) -> AppView {
        AppView { item_index: if self.item_index > 0 { self.item_index - 1 } else { 0 }, ..self }
    }

    /// The state after "next category".
    pub open spec fn next_cat(self) -> AppView {
        if self.cat_index + 1 < self.categories.len() {
            AppView { cat_index: self.cat_index + 1, item_index: 0, ..self }
        } else {
            self
        }
    }

    /// The state after "previous category".
    pub open spec fn prev_cat(self) -> AppView {
        if self.cat_index > 0 {
            AppView { cat_index: self.cat_index - 1, item_index: 0, ..self }
        } else {
            self
        }
    }

    /// The state after the selected setting took the value `k` (and the
    /// document was written), with the modified mark set when `mark` holds.
    pub open spec fn after_change(self, k: KindView, mark: bool) -> AppView {
        let cats = with_kind(self.categories, self.cat_index, self.item_index, k);
        AppView {
            doc: write_doc(self.doc, all_items(cats)),
            categories: cats,
            cat_index: self.cat_index,
            item_index: self.item_index,
            dirty: self.dirty || mark,
        }
    }
}

/// The editor: the configuration document, the settings, the selection and
/// whether anything changed since the last save.
pub struct App {
    config: Value,
    categories: Vec<Category>,
    cat_index: usize,
    item_index: usize,
    dirty: bool,
}

impl View for App {
    type V = AppView;

    closed spec fn view(&self) -> AppView {
        AppView {
            doc: json_view(self.config),
            categories: categories_view(self.categories@),
            cat_index: self.cat_index as int,
            item_index: self.item_index as int,
            dirty: self.dirty,
        }
    }
}

/// The position of the first option equal to `x`, or 0 when none is.
fn option_position(opts: &Vec<String>, x: &String) -> (r: usize)
    ensures
        r as int == position_or_zero(strings_view(opts@), x@),
        opts.len() > 0 ==> r < opts.len(),
{
    let ghost o = strings_view(opts@);
    let mut i: usize = 0;
    while i < opts.len()
        invariant
            i <= opts.len(),
            o == strings_view(opts@),
            forall|j: int| 0 <= j < i ==> o[j] != x@,
        decreases opts.len() - i,
    {
        if opts[i] == *x {
            proof {
                o.index_of_first_ensures(x@);
                assert(o[i as int] == x@);
                assert(o.contains(x@));
            }
            return i;
        }
        i = i + 1;
    }
    proof {
        o.index_of_first_ensures(x@);
        if o.contains(x@) {
            let k = choose|k: int| 0 <= k < o.len() && o[k] == x@;
            assert(o[k] != x@);
        }
    }
    0
}

proof fn lemma_write_doc_step(d: JsonView, a: Seq<ItemView>, b: Seq<ItemView>, j: int)
    requires
        0 <= j < b.len(),
        keyed(d),
    ensures
        write_doc(d, a + b.take(j + 1)) == set_key(write_doc(d, a + b.take(j)), b[j].key, item_json(b[j].kind)),
        keyed(write_doc(d, a + b.take(j))),
{
    assert((a + b.take(j + 1)).drop_last() =~= a + b.take(j));
    assert((a + b.take(j + 1)).last() == b[j]);
    if (a + b.take(j)).len() == 0 {
        assert(write_map(obj_map(d), a + b.take(j)) == obj_map(d));
    }
}

proof fn lemma_all_items_step(cats: Seq<CategoryView>, i: int)
    requires
        0 <= i < cats.len(),
    ensures
        all_items(cats.take(i + 1)) == all_items(cats.take(i)) + cats[i].items,
{
    assert(cats.take(i + 1).drop_last() =~= cats.take(i));
}

impl App {
    /// The editor on the configuration document `config`: the settings read
    /// from it, the first setting of the first category selected, nothing
    /// modified.
    pub fn new(config: Value) -> (r: App)
        ensures
            r@ == (AppView {
                doc: json_view(config),
                categories: categories_from(doc_fields(json_view(config))),
                cat_index: 0,
                item_index: 0,
                dirty: false,
            }),
            r@.wf(),
            shaped(r@.categories),
    {
        let categories = build_categories(&config);
        let r = App { config, categories, cat_index: 0, item_index: 0, dirty: false };
        proof {
            lemma_read_settings_shaped(doc_fields(json_view(config)));
            let cats = categories_from(doc_fields(json_view(config)));
            assert forall|i: int| 0 <= i < cats.len() implies #[trigger] cats[i].items.len() > 0 by {
            }
            assert forall|i: int, j: int|
                0 <= i < cats.len() && 0 <= j < cats[i].items.len() implies kind_ok(
                #[trigger] cats[i].items[j].kind,
            ) by {
            }
        }
        r
    }

    /// Writes every setting into the configuration document under its key,
    /// category after category.
    pub fn apply_to_config(&mut self)
        requires
            old(self)@.keyed(),
        ensures
            final(self)@ == (AppView { doc: old(self)@.applied(), ..old(self)@ }),
    {
        let ghost d0 = json_view(self.config);
        let ghost cats = categories_view(self.categories@);
        let n = self.categories.len();
        let mut ci: usize = 0;
        while ci < n
            invariant
                n == self.categories.len(),
                ci <= n,
                cats == categories_view(self.categories@),
                self.cat_index == old(self).cat_index,
                self.item_index == old(self).item_index,
                self.dirty == old(self).dirty,
                self.categories@ == old(self).categories@,
                d0 == json_view(old(self).config),
                keyed(d0),
                json_view(self.config) == write_doc(d0, all_items(cats.take(ci as int))),
            decreases n - ci,
        {
            let m = self.categories[ci].items.len();
            let ghost before = all_items(cats.take(ci as int));
            let ghost its = cats[ci as int].items;
            assert(its == items_view(self.categories@[ci as int].items@));
            let mut ii: usize = 0;
            assert(before + its.take(0) =~= before);
            while ii < m
                invariant
                    n == self.categories.len(),
                    ci < n,
                    m == self.categories@[ci as int].items.len(),
                    ii <= m,
                    its == items_view(self.categories@[ci as int].items@),
                    self.categories@ == old(self).categories@,
                    self.cat_index == old(self).cat_index,
                    self.item_index == old(self).item_index,
                    self.dirty == old(self).dirty,
                    keyed(d0),
                    json_view(self.config) == write_doc(d0, before + its.take(ii as int)),
                decreases m - ii,
            {
                proof {
                    lemma_write_doc_step(d0, before, its, ii as int);
                }
                let it = &self.categories[ci].items[ii];
                match &it.kind {
                    ItemKind::Color(c) => json_set_u8(&mut self.config, it.key.as_str(), *c),
                    ItemKind::Bool(b) => json_set_bool(&mut self.config, it.key.as_str(), *b),
                    ItemKind::Number(x) => json_set_u64(&mut self.config, it.key.as_str(), *x),
                    ItemKind::Text(t) => json_set_text(&mut self.config, it.key.as_str(), t),
                    ItemKind::Theme(t) => json_set_text(&mut self.config, it.key.as_str(), t),
                    ItemKind::Choice(_, cur) => json_set_text(&mut self.config, it.key.as_str(), cur),
                }
                ii = ii + 1;
            }
            proof {
                lemma_all_items_step(cats, ci as int);
                assert(its.take(m as int) =~= its);
            }
            ci = ci + 1;
        }
        assert(cats.take(n as int) =~= cats);
    }

    /// Selects the next setting of the category, staying on the last one; does
    /// nothing when no category is selected.
    pub fn move_down(&mut self)
        ensures
            final(self)@ == old(self)@.moved_down(),
            old(self)@.wf() ==> final(self)@.wf(),
    {
        if self.cat_index >= self.categories.len() {
            return;
        }
        let len = self.categories[self.cat_index].items.len();
        if self.item_index < len.saturating_sub(1) {
            self.item_index += 1;
        }
    }

    /// Selects the previous setting of the category, staying on the first one.
    pub fn move_up(&mut self)
        ensures
            final(self)@ == old(self)@.moved_up(),
            old(self)@.wf() ==> final(self)@.wf(),
    {
        if self.item_index > 0 {
            self.item_index -= 1;
        }
    }

    /// Selects the first setting of the next category, staying on the last
    /// category.
    pub fn next_category(&mut self)
        requires
            old(self)@.categories.len() > 0,
        ensures
            final(self)@ == old(self)@.next_cat(),
            old(self)@.wf() ==> final(self)@.wf(),
    {
        if self.cat_index < self.categories.len() - 1 {
            self.cat_index += 1;
            self.item_index = 0;
        }
    }

    /// Selects the first setting of the previous category, staying on the first
    /// category.
    pub fn prev_category(&mut self)
        ensures
            final(self)@ == old(self)@.prev_cat(),
            old(self)@.wf() ==> final(self)@.wf(),
    {
        if self.cat_index > 0 {
            self.cat_index -= 1;
            self.item_index = 0;
        }
    }

    /// Gives the selected setting the value `k`, keeping the kind's cycling
    /// precondition.
    fn set_current_kind(&mut self, k: ItemKind)
        requires
            old(self)@.selected(),
            kind_ok(k@),
            same_kind(k@, old(self)@.current().kind),
        ensures
            shaped(old(self)@.categories) ==> shaped(final(self)@.categories),
            final(self)@ == (AppView {
                categories: with_kind(old(self)@.categories, old(self)@.cat_index, old(self)@.item_index, k@),
                ..old(self)@
            }),
            old(self)@.wf() ==> final(self)@.wf(),
    {
        let ci = self.cat_index;
        let ii = self.item_index;
        self.categories[ci].items[ii].kind = k;
        proof {
            let a = categories_view(old(self).categories@);
            let b = categories_view(self.categories@);
            let w = with_kind(a, ci as int, ii as int, k@);
            assert(items_view(self.categories@[ci as int].items@) =~= w[ci as int].items);
            assert(b =~= w);
            if shaped(a) {
                lemma_with_kind_shaped(a, ci as int, ii as int, k@);
            }
        }
    }

    /// Cycles the selected setting to its next value, marks the settings as
    /// modified unless the setting is a text, and writes every setting into the
    /// configuration document; does nothing when no setting is selected.
    pub fn next_value(&mut self)
        requires
            old(self)@.selected() ==> old(self)@.keyed() && old(self)@.current().kind != KindView::Number(
                u64::MAX,
            ) && kind_ok(old(self)@.current().kind),
        ensures
            old(self)@.selected() ==> final(self)@ == old(self)@.after_change(
                next_kind(old(self)@.current().kind),
                cycles(old(self)@.current().kind),
            ),
            old(self)@.selected() && !(old(self)@.current().kind is Text) ==> final(self)@.dirty,
            !old(self)@.selected() ==> final(self)@ == old(self)@,
            old(self)@.wf() ==> final(self)@.wf(),
            shaped(old(self)@.categories) ==> shaped(final(self)@.categories),
    {
        let ci = self.cat_index;
        let ii = self.item_index;
        if ci >= self.categories.len() || ii >= self.categories[ci].items.len() {
            return;
        }
        let ghost cur = self@.current().kind;
        assert(self.categories@[ci as int].items@[ii as int]@.kind == cur);
        let next: Option<ItemKind> = match &self.categories[ci].items[ii].kind {
            ItemKind::Color(c) => Some(ItemKind::Color(c.wrapping_add(1))),
            ItemKind::Bool(b) => Some(ItemKind::Bool(!*b)),
            ItemKind::Number(x) => Some(ItemKind::Number(*x + 1)),
            ItemKind::Theme(t) => {
                let idx = theme_position(t.as_str());
                Some(ItemKind::Theme(theme_name((idx + 1) % THEME_COUNT).to_owned()))
            },
            ItemKind::Choice(opts, current) => {
                let idx = option_position(opts, current);
                let chosen = opts[(idx + 1) % opts.len()].clone();
                Some(ItemKind::Choice(opts.clone(), chosen))
            },
            ItemKind::Text(_) => None,
        };
        match next {
            Some(k) => {
                proof {
                    assert(k@ == next_kind(cur));
                    lemma_changes_keep_kind(cur, Seq::empty());
                }
                self.set_current_kind(k);
                self.dirty = true;
            },
            None => {
                proof {
                    let cs = self@.categories;
                    assert(cs[ci as int].items.update(ii as int, cs[ci as int].items[ii as int]) =~= cs[ci as int].items);
                    assert(with_kind(cs, ci as int, ii as int, cur) =~= cs);
                }
            },
        }
        self.apply_to_config();
    }

    /// Cycles the selected setting to its previous value, marks the settings as
    /// modified unless the setting is a text, and writes every setting into the
    /// configuration document; does nothing when no setting is selected.
    pub fn prev_value(&mut self)
        requires
            old(self)@.selected() ==> old(self)@.keyed() && kind_ok(old(self)@.current().kind),
        ensures
            old(self)@.selected() ==> final(self)@ == old(self)@.after_change(
                prev_kind(old(self)@.current().kind),
                cycles(old(self)@.current().kind),
            ),
            old(self)@.selected() && !(old(self)@.current().kind is Text) ==> final(self)@.dirty,
            !old(self)@.selected() ==> final(self)@ == old(self)@,
            old(self)@.wf() ==> final(self)@.wf(),
            shaped(old(self)@.categories) ==> shaped(final(self)@.categories),
    {
        let ci = self.cat_index;
        let ii = self.item_index;
        if ci >= self.categories.len() || ii >= self.categories[ci].items.len() {
            return;
        }
        let ghost cur = self@.current().kind;
        assert(self.categories@[ci as int].items@[ii as int]@.kind == cur);
        let prev: Option<ItemKind> = match &self.categories[ci].items[ii].kind {
            ItemKind::Color(c) => Some(ItemKind::Color(c.wrapping_sub(1))),
            ItemKind::Bool(b) => Some(ItemKind::Bool(!*b)),
            ItemKind::Number(x) => Some(ItemKind::Number(x.saturating_sub(1))),
            ItemKind::Theme(t) => {
                let idx = theme_position(t.as_str());
                Some(ItemKind::Theme(theme_name((idx + THEME_COUNT - 1) % THEME_COUNT).to_owned()))
            },
            ItemKind::Choice(opts, current) => {
                let idx = option_position(opts, current);
                let len = opts.len();
                let j = if idx == 0 { len - 1 } else { idx - 1 };
                assert(j as int == (idx + len - 1) % (len as int)) by (nonlinear_arith)
                    requires
                        idx < len,
                        idx == 0 ==> j == len - 1,
                        idx > 0 ==> j == idx - 1,
                ;
                let chosen = opts[j].clone();
                Some(ItemKind::Choice(opts.clone(), chosen))
            },
            ItemKind::Text(_) => None,
        };
        match prev {
            Some(k) => {
                proof {
                    assert(k@ == prev_kind(cur));
                    lemma_changes_keep_kind(cur, Seq::empty());
                }
                self.set_current_kind(k);
                self.dirty = true;
            },
            None => {
                proof {
                    let cs = self@.categories;
                    assert(cs[ci as int].items.update(ii as int, cs[ci as int].items[ii as int]) =~= cs[ci as int].items);
                    assert(with_kind(cs, ci as int, ii as int, cur) =~= cs);
                }
            },
        }
        self.apply_to_config();
    }

    /// Starts editing the selected setting. A text, number or colour is edited by
    /// asking the user: nothing changes yet, and the question is returned. Any
    /// other setting is cycled to its next value as by `next_value`. Nothing
    /// happens when no setting is selected.
    pub fn begin_edit(&mut self) -> (r: Option<EditPrompt>)
        requires
            old(self)@.selected() && !asks_value(old(self)@.current().kind) ==> old(self)@.keyed()
                && kind_ok(old(self)@.current().kind),
        ensures
            !old(self)@.selected() ==> final(self)@ == old(self)@ && r is None,
            old(self)@.selected() && asks_value(old(self)@.current().kind) ==> {
                &&& final(self)@ == old(self)@
                &&& r is Some
                &&& (r->0.prompt@, r->0.initial@) == edit_request(old(self)@.current())
            },
            old(self)@.selected() && !asks_value(old(self)@.current().kind) ==> {
                &&& final(self)@ == old(self)@.after_change(
                    next_kind(old(self)@.current().kind),
                    cycles(old(self)@.current().kind),
                )
                &&& r is None
            },
            old(self)@.wf() ==> final(self)@.wf(),
            shaped(old(self)@.categories) ==> shaped(final(self)@.categories),
    {
        let ci = self.cat_index;
        let ii = self.item_index;
        if ci >= self.categories.len() || ii >= self.categories[ci].items.len() {
            return None;
        }
        let it = &self.categories[ci].items[ii];
        assert(self.categories@[ci as int].items@[ii as int]@ == self@.current());
        let mut prompt = it.label.clone();
        match &it.kind {
            ItemKind::Text(t) => {
                string_push_str(&mut prompt, ": ");
                Some(EditPrompt { prompt, initial: t.clone() })
            },
            ItemKind::Number(n) => {
                string_push_str(&mut prompt, ": ");
                Some(EditPrompt { prompt, initial: u64_to_decimal(*n) })
            },
            ItemKind::Color(c) => {
                string_push_str(&mut prompt, " (0-255): ");
                Some(EditPrompt { prompt, initial: u64_to_decimal(*c as u64) })
            },
            _ => {
                self.next_value();
                None
            },
        }
    }

    /// Finishes editing the selected text, number or colour with the user's
    /// answer, then writes every setting into the configuration document.
    pub fn finish_edit(&mut self, answer: String)
        requires
            old(self)@.selected(),
            old(self)@.keyed(),
            asks_value(old(self)@.current().kind),
        ensures
            final(self)@ == old(self)@.after_change(
                edited_kind(old(self)@.current().kind, answer@),
                answer_taken(old(self)@.current().kind, answer@),
            ),
            old(self)@.current().kind is Text && answer@.len() > 0 ==> final(self)@.dirty,
            old(self)@.current().kind is Number && parse_unsigned_spec(answer@, u64::MAX as nat) is Some
                ==> final(self)@.dirty,
            old(self)@.current().kind is Color && parse_unsigned_spec(answer@, 255) is Some ==> final(self)@.dirty,
            old(self)@.wf() ==> final(self)@.wf(),
            shaped(old(self)@.categories) ==> shaped(final(self)@.categories),
    {
        let ci = self.cat_index;
        let ii = self.item_index;
        let ghost cur = self@.current().kind;
        assert(self.categories@[ci as int].items@[ii as int]@.kind == cur);
        let edited: Option<ItemKind> = match &self.categories[ci].items[ii].kind {
            ItemKind::Text(_) => {
                if !answer.as_str().is_empty() {
                    Some(ItemKind::Text(answer))
                } else {
                    None
                }
            },
            ItemKind::Number(_) => match parse_unsigned(answer.as_str(), u64::MAX) {
                Some(v) => Some(ItemKind::Number(v)),
                None => None,
            },
            ItemKind::Color(_) => match parse_unsigned(answer.as_str(), 255) {
                Some(v) => Some(ItemKind::Color(v as u8)),
                None => None,
            },
            _ => None,
        };
        match edited {
            Some(k) => {
                proof {
                    assert(k@ == edited_kind(cur, answer@));
                    lemma_changes_keep_kind(cur, answer@);
                }
                self.set_current_kind(k);
                self.dirty = true;
            },
            None => {
                proof {
                    let cs = self@.categories;
                    assert(edited_kind(cur, answer@) == cur);
                    assert(cs[ci as int].items.update(ii as int, cs[ci as int].items[ii as int]) =~= cs[ci as int].items);
                    assert(with_kind(cs, ci as int, ii as int, cur) =~= cs);
                }
            },
        }
        self.apply_to_config();
    }

    /// What the editor shows in this state. The settings pane is left as it is
    /// (`items` is `None`) when no category is selected.
    pub fn render(&self) -> (r: Screen)
        requires
            self@.item_index < usize::MAX,
            self@.has_category() ==> texts_fit(self@.categories[self@.cat_index]),
        ensures
            r.title@ == title_text(self@.dirty),
            lines_view(r.categories@) == category_lines(self@.categories, self@.cat_index),
            match r.items {
                Some(ls) => self@.has_category() && lines_view(ls@) == item_lines(
                    self@.categories[self@.cat_index],
                    self@.item_index,
                ),
                None => !self@.has_category(),
            },
            r.status@ == status_text(
                (self@.item_index + 1) as nat,
                if self@.has_category() {
                    self@.categories[self@.cat_index].items.len()
                } else {
                    0
                },
            ),
    {
        let ci = self.cat_index;
        let count: usize = if ci < self.categories.len() {
            self.categories[ci].items.len()
        } else {
            0
        };
        let items = self.render_items();
        Screen {
            title: render_title(self.dirty),
            categories: render_category_lines(&self.categories, ci),
            items,
            status: render_status((self.item_index + 1) as u64, count as u64),
        }
    }

    /// The lines of the settings pane: the selected category's settings, with a
    /// preview under a selected colour or theme; `None` when no category is
    /// selected.
    pub fn render_items(&self) -> (r: Option<Vec<Vec<Span>>>)
        requires
            self@.has_category() ==> texts_fit(self@.categories[self@.cat_index]),
        ensures
            match r {
                Some(ls) => self@.has_category() && lines_view(ls@) == item_lines(
                    self@.categories[self@.cat_index],
                    self@.item_index,
                ),
                None => !self@.has_category(),
            },
    {
        if self.cat_index >= self.categories.len() {
            return None;
        }
        Some(render_item_lines(&self.categories[self.cat_index], self.item_index))
    }

    /// Writes every setting into the configuration document and prints the
    /// document as serde_json's pretty print; the text is what the configuration
    /// file is to hold. When serde_json reads the text back, the document it
    /// gives has the same keys, each read by the settings as the same value.
    pub fn save_text(&mut self) -> (r: Option<String>)
        requires
            old(self)@.keyed(),
        ensures
            final(self)@ == (AppView { doc: old(self)@.applied(), ..old(self)@ }),
            r matches Some(s) && s@ == json_text(old(self)@.applied()),
            r matches Some(s) ==> (json_read(s@) matches Some(w) ==> doc_fields(w) == doc_fields(
                old(self)@.applied(),
            ) && keyed(w) == keyed(old(self)@.applied())),
    {
        self.apply_to_config();
        json_pretty(&self.config)
    }

    /// Records the outcome of writing the configuration file: when it was
    /// written, nothing counts as modified any more. Returns the message to show.
    pub fn save_finished(&mut self, written: bool) -> (r: Span)
        ensures
            final(self)@ == (AppView { dirty: old(self)@.dirty && !written, ..old(self)@ }),
            r@ == (if written {
                sv(" Config saved (rush reloaded)"@, Style::Fg(82))
            } else {
                sv(" Failed to save config!"@, Style::Fg(196))
            }),
    {
        if written {
            self.dirty = false;
            Span { text: " Config saved (rush reloaded)".to_owned(), style: Style::Fg(82) }
        } else {
            Span { text: " Failed to save config!".to_owned(), style: Style::Fg(196) }
        }
    }

    /// The selected category.
    pub fn cat_index(&self) -> (r: usize)
        ensures
            r == self@.cat_index,
    {
        self.cat_index
    }

    /// The selected setting within the selected category.
    pub fn item_index(&self) -> (r: usize)
        ensures
            r == self@.item_index,
    {
        self.item_index
    }

    /// The settings.
    pub fn categories(&self) -> (r: &Vec<Category>)
        ensures
            categories_view(r@) == self@.categories,
    {
        &self.categories
    }

    /// The configuration document.
    pub fn config(&self) -> (r: &Value)
        ensures
            json_view(*r) == self@.doc,
    {
        &self.config
    }

    /// Whether the settings changed since the last save.
    pub fn is_dirty(&self) -> (r: bool)
        ensures
            r == self@.dirty,
    {
        self.dirty
    }

    /// Whether the configuration document can be written to by key (it is an
    /// object or null); writing the settings into any other document fails.
    pub fn config_writable(&self) -> (r: bool)
        ensures
            r == self@.keyed(),
    {
        json_is_keyed(&self.config)
    }

    /// Whether a setting is selected.
    pub fn has_selection(&self) -> (r: bool)
        ensures
            r == self@.selected(),
    {
        self.cat_index < self.categories.len() && self.item_index < self.categories[self.cat_index].items.len()
    }

    /// Whether editing cycles the selected setting (a boolean, theme or choice)
    /// rather than asking for a new value; false when no setting is selected.
    pub fn edit_cycles(&self) -> (r: bool)
        ensures
            r == (self@.selected() && !asks_value(self@.current().kind)),
    {
        if !self.has_selection() {
            return false;
        }
        let it = &self.categories[self.cat_index].items[self.item_index];
        assert(it@ == self@.current());
        match &it.kind {
            ItemKind::Text(_) => false,
            ItemKind::Number(_) => false,
            ItemKind::Color(_) => false,
            _ => true,
        }
    }

    /// Whether "previous value" can be applied to the selection: a selected choice
    /// has an option.
    pub fn can_step_down(&self) -> (r: bool)
        ensures
            r == (self@.selected() ==> kind_ok(self@.current().kind)),
    {
        if !self.has_selection() {
            return true;
        }
        let it = &self.categories[self.cat_index].items[self.item_index];
        assert(it@ == self@.current());
        match &it.kind {
            ItemKind::Choice(opts, _) => opts.len() > 0,
            _ => true,
        }
    }

    /// Whether "next value" can be applied to the selection: a selected number is
    /// not already at the largest value, and a selected choice has an option.
    pub fn can_step_up(&self) -> (r: bool)
        ensures
            r == (self@.selected() ==> self@.current().kind != KindView::Number(u64::MAX) && kind_ok(
                self@.current().kind,
            )),
    {
        if !self.has_selection() {
            return true;
        }
        let it = &self.categories[self.cat_index].items[self.item_index];
        assert(it@ == self@.current());
        match &it.kind {
            ItemKind::Number(n) => *n != u64::MAX,
            ItemKind::Choice(opts, _) => opts.len() > 0,
            _ => true,
        }
    }

    /// Whether the editor can be drawn: the selected setting's position can be
    /// counted from one, and every text setting of the selected category can be
    /// shown.
    pub fn can_render(&self) -> (r: bool)
        ensures
            r == (self@.item_index < usize::MAX && (self@.has_category() ==> texts_fit(
                self@.categories[self@.cat_index],
            ))),
    {
        if self.item_index == usize::MAX {
            return false;
        }
        if self.cat_index >= self.categories.len() {
            return true;
        }
        let cat = &self.categories[self.cat_index];
        let ghost cv = cat@;
        assert(cv == self@.categories[self@.cat_index]);
        let mut i: usize = 0;
        while i < cat.items.len()
            invariant
                i <= cat.items.len(),
                self.item_index < usize::MAX,
                self.cat_index < self.categories.len(),
                cv == cat@,
                cv == self@.categories[self@.cat_index],
                forall|j: int| 0 <= j < i ==> (#[trigger] cv.items[j].kind matches KindView::Text(t) ==> crate::render::text_cut_ok(t)),
            decreases cat.items.len() - i,
        {
            assert(cv.items[i as int] == cat.items@[i as int]@);
            match &cat.items[i].kind {
                ItemKind::Text(t) => {
                    if !crate::render::text_fits(t.as_str()) {
                        assert(cv.items[i as int].kind == KindView::Text(t@));
                        assert(!texts_fit(cv));
                        return false;
                    }
                },
                _ => {},
            }
            i = i + 1;
        }
        true
    }

    /// Does what the key named `key` asks for and says what the terminal front
    /// end is to do next.
    pub fn step(&mut self, key: &str) -> (r: Effect)
        requires
            key_action_spec(key@) == Action::NextCategory ==> old(self)@.categories.len() > 0,
            key_action_spec(key@) == Action::NextValue && old(self)@.selected() ==> old(self)@.keyed()
                && old(self)@.current().kind != KindView::Number(u64::MAX) && kind_ok(
                old(self)@.current().kind,
            ),
            key_action_spec(key@) == Action::PrevValue && old(self)@.selected() ==> old(self)@.keyed()
                && kind_ok(old(self)@.current().kind),
            key_action_spec(key@) == Action::Edit && old(self)@.selected() && !asks_value(
                old(self)@.current().kind,
            ) ==> old(self)@.keyed() && kind_ok(old(self)@.current().kind),
        ensures
            old(self)@.wf() ==> final(self)@.wf(),
            shaped(old(self)@.categories) ==> shaped(final(self)@.categories),
            match key_action_spec(key@) {
                Action::Quit => final(self)@ == old(self)@ && r == (Effect::Quit { ask_save: old(self)@.dirty }),
                Action::MoveDown => final(self)@ == old(self)@.moved_down() && r is Redraw,
                Action::MoveUp => final(self)@ == old(self)@.moved_up() && r is Redraw,
                Action::NextCategory => final(self)@ == old(self)@.next_cat() && r is Redraw,
                Action::PrevCategory => final(self)@ == old(self)@.prev_cat() && r is Redraw,
                Action::NextValue => r is Redraw && if old(self)@.selected() {
                    final(self)@ == old(self)@.after_change(
                        next_kind(old(self)@.current().kind),
                        cycles(old(self)@.current().kind),
                    )
                } else {
                    final(self)@ == old(self)@
                },
                Action::PrevValue => r is Redraw && if old(self)@.selected() {
                    final(self)@ == old(self)@.after_change(
                        prev_kind(old(self)@.current().kind),
                        cycles(old(self)@.current().kind),
                    )
                } else {
                    final(self)@ == old(self)@
                },
                Action::Edit => if !old(self)@.selected() {
                    final(self)@ == old(self)@ && r is Redraw
                } else if asks_value(old(self)@.current().kind) {
                    &&& final(self)@ == old(self)@
                    &&& r matches Effect::Ask(p)
                    &&& (p.prompt@, p.initial@) == edit_request(old(self)@.current())
                } else {
                    &&& final(self)@ == old(self)@.after_change(
                        next_kind(old(self)@.current().kind),
                        cycles(old(self)@.current().kind),
                    )
                    &&& r is Redraw
                },
                Action::Save => final(self)@ == old(self)@ && r is Save,
                Action::Resize => final(self)@ == old(self)@ && r is Resize,
                Action::Ignore => final(self)@ == old(self)@ && r is Nothing,
            },
    {
        match key_action(key) {
            Action::Quit => Effect::Quit { ask_save: self.dirty },
            Action::MoveDown => {
                self.move_down();
                Effect::Redraw
            },
            Action::MoveUp => {
                self.move_up();
                Effect::Redraw
            },
            Action::NextCategory => {
                self.next_category();
                Effect::Redraw
            },
            Action::PrevCategory => {
                self.prev_category();
                Effect::Redraw
            },
            Action::NextValue => {
                self.next_value();
                Effect::Redraw
            },
            Action::PrevValue => {
                self.prev_value();
                Effect::Redraw
            },
            Action::Edit => match self.begin_edit() {
                Some(p) => Effect::Ask(p),
                None => Effect::Redraw,
            },
            Action::Save => Effect::Save,
            Action::Resize => Effect::Resize,
            Action::Ignore => Effect::Nothing,
        }
    }
}

} // verus!
