//! The settings model: categories of items, each item bound to a key of the
//! configuration document and holding a value of one of a few kinds.
use vstd::prelude::*;
use serde_json::Value;
use crate::json::{
    FieldView, json_fields, text_at, unsigned_at, flag_at, json_get_text, json_get_unsigned,
    json_get_flag,
};

verus! {

/// The value of a setting.
#[derive(Clone)]
pub enum ItemKind {
    /// A terminal colour, 0 to 255.
    Color(u8),
    Bool(bool),
    Number(u64),
    Text(String),
    /// The name of a colour theme.
    Theme(String),
    /// One of the given options (the current value need not be among them).
    Choice(Vec<String>, String),
}

/// A setting: the key it is stored under, the label shown for it, its value.
#[derive(Clone)]
pub struct Item {
    pub key: String,
    pub label: String,
    pub kind: ItemKind,
}

/// A named group of settings.
pub struct Category {
    pub name: String,
    pub items: Vec<Item>,
}

/// The mathematical value of an `ItemKind`.
pub enum KindView {
    Color(u8),
    Bool(bool),
    Number(u64),
    Text(Seq<char>),
    Theme(Seq<char>),
    Choice(Seq<Seq<char>>, Seq<char>),
}

pub struct ItemView {
    pub key: Seq<char>,
    pub label: Seq<char>,
    pub kind: KindView,
}

pub struct CategoryView {
    pub name: Seq<char>,
    pub items: Seq<ItemView>,
}

pub open spec fn strings_view(v: Seq<String>) -> Seq<Seq<char>> {
    v.map_values(|s: String| s@)
}

impl View for ItemKind {
    type V = KindView;

    open spec fn view(&self) -> KindView {
        match self {
            ItemKind::Color(c) => KindView::Color(*c),
            ItemKind::Bool(b) => KindView::Bool(*b),
            ItemKind::Number(n) => KindView::Number(*n),
            ItemKind::Text(t) => KindView::Text(t@),
            ItemKind::Theme(t) => KindView::Theme(t@),
            ItemKind::Choice(o, c) => KindView::Choice(strings_view(o@), c@),
        }
    }
}

impl View for Item {
    type V = ItemView;

    open spec fn view(&self) -> ItemView {
        ItemView { key: self.key@, label: self.label@, kind: self.kind@ }
    }
}

pub open spec fn items_view(v: Seq<Item>) -> Seq<ItemView> {
    v.map_values(|i: Item| i@)
}

impl View for Category {
    type V = CategoryView;

    open spec fn view(&self) -> CategoryView {
        CategoryView { name: self.name@, items: items_view(self.items@) }
    }
}

pub open spec fn categories_view(v: Seq<Category>) -> Seq<CategoryView> {
    v.map_values(|c: Category| c@)
}

/// A colour setting read from the document: the integer at `key` taken modulo
/// 256, or `default` when there is none.
pub open spec fn color_item_view(fields: Map<Seq<char>, FieldView>, key: Seq<char>, label: Seq<char>, default: u8) -> ItemView {
    ItemView {
        key,
        label,
        kind: KindView::Color(
            match unsigned_at(fields, key) {
                Some(n) => (n % 256) as u8,
                None => default,
            },
        ),
    }
}

pub fn item(key: &str, label: &str, kind: ItemKind) -> (r: Item)
    ensures
        r@ == (ItemView { key: key@, label: label@, kind: kind@ }),
{
    Item { key: key.to_owned(), label: label.to_owned(), kind }
}

pub fn color_item(config: &Value, key: &str, label: &str, default: u8) -> (r: Item)
    ensures
        r@ == color_item_view(json_fields(*config), key@, label@, default),
{
    let val: u8 = match json_get_unsigned(config, key) {
        Some(n) => (n % 256) as u8,
        None => default,
    };
    Item { key: key.to_owned(), label: label.to_owned(), kind: ItemKind::Color(val) }
}


/// A text read from the document: the string at `key`, or `default`.
pub open spec fn text_or(fields: Map<Seq<char>, FieldView>, key: Seq<char>, default: Seq<char>) -> Seq<char> {
    match text_at(fields, key) {
        Some(t) => t,
        None => default,
    }
}

/// A boolean setting read from the document: the boolean at `key`, or `default`.
pub open spec fn bool_item_view(fields: Map<Seq<char>, FieldView>, key: Seq<char>, label: Seq<char>, default: bool) -> ItemView {
    ItemView {
        key,
        label,
        kind: KindView::Bool(
            match flag_at(fields, key) {
                Some(b) => b,
                None => default,
            },
        ),
    }
}

/// A number setting read from the document: the integer at `key`, or `default`.
pub open spec fn num_item_view(fields: Map<Seq<char>, FieldView>, key: Seq<char>, label: Seq<char>, default: u64) -> ItemView {
    ItemView {
        key,
        label,
        kind: KindView::Number(
            match unsigned_at(fields, key) {
                Some(n) => n,
                None => default,
            },
        ),
    }
}

/// A text setting read from the document: the string at `key`, or `default`.
pub open spec fn text_item_view(fields: Map<Seq<char>, FieldView>, key: Seq<char>, label: Seq<char>, default: Seq<char>) -> ItemView {
    ItemView { key, label, kind: KindView::Text(text_or(fields, key, default)) }
}

/// The options of the history de-duplication setting.
pub open spec fn dedup_options() -> Seq<Seq<char>> {
    seq!["off"@, "full"@, "smart"@]
}

/// The settings, grouped in categories, with their values read from a document
/// with the given fields, each falling back to its default.
pub open spec fn categories_from(f: Map<Seq<char>, FieldView>) -> Seq<CategoryView> {
    seq![
        CategoryView {
            name: "Theme"@,
            items: seq![
                ItemView {
                    key: "theme"@,
                    label: "Theme"@,
                    kind: KindView::Theme(text_or(f, "theme"@, "default"@)),
                },
            ],
        },
        CategoryView {
            name: "Prompt Colors"@,
            items: seq![
                color_item_view(f, "c_user"@, "Username"@, 2),
                color_item_view(f, "c_host"@, "Hostname"@, 2),
                color_item_view(f, "c_cwd"@, "Directory"@, 81),
                color_item_view(f, "c_git"@, "Git branch"@, 243),
                color_item_view(f, "c_stamp"@, "Timestamp"@, 240),
                color_item_view(f, "c_prompt"@, "Prompt >"@, 208),
                color_item_view(f, "c_user_root"@, "Root user"@, 196),
                color_item_view(f, "c_host_root"@, "Root host"@, 196),
            ],
        },
        CategoryView {
            name: "Syntax Colors"@,
            items: seq![
                color_item_view(f, "c_cmd"@, "Commands"@, 48),
                color_item_view(f, "c_nick"@, "Nicks"@, 87),
                color_item_view(f, "c_gnick"@, "Global nicks"@, 87),
                color_item_view(f, "c_path"@, "Paths"@, 7),
                color_item_view(f, "c_switch"@, "Switches"@, 220),
                color_item_view(f, "c_bookmark"@, "Bookmarks"@, 51),
                color_item_view(f, "c_colon"@, "Colon cmds"@, 33),
                color_item_view(f, "c_suggestion"@, "Suggestions"@, 240),
            ],
        },
        CategoryView {
            name: "Tab Colors"@,
            items: seq![
                color_item_view(f, "c_tabselect"@, "Selected tab"@, 214),
                color_item_view(f, "c_taboption"@, "Tab options"@, 244),
                color_item_view(f, "c_dir"@, "Directories"@, 12),
                color_item_view(f, "c_exec"@, "Executables"@, 9),
                color_item_view(f, "c_file"@, "Files"@, 7),
            ],
        },
        CategoryView {
            name: "Completion"@,
            items: seq![
                bool_item_view(f, "completion_fuzzy"@, "Fuzzy match"@, false),
                bool_item_view(f, "completion_case_sensitive"@, "Case sensitive"@, false),
                num_item_view(f, "completion_limit"@, "Max results"@, 10),
                bool_item_view(f, "completion_show_metadata"@, "Show metadata"@, false),
            ],
        },
        CategoryView {
            name: "Behavior"@,
            items: seq![
                bool_item_view(f, "auto_correct"@, "Auto correct"@, false),
                bool_item_view(f, "auto_pair"@, "Auto pair"@, true),
                bool_item_view(f, "show_tips"@, "Show tips"@, true),
                bool_item_view(f, "show_cmd"@, "Show command"@, true),
                bool_item_view(f, "rprompt"@, "Right prompt"@, true),
                num_item_view(f, "slow_command_threshold"@, "Slow cmd warn (s)"@, 0),
                num_item_view(f, "session_autosave"@, "Autosave (s)"@, 0),
                ItemView {
                    key: "history_dedup"@,
                    label: "History dedup"@,
                    kind: KindView::Choice(dedup_options(), text_or(f, "history_dedup"@, "smart"@)),
                },
            ],
        },
        CategoryView {
            name: "Paths"@,
            items: seq![text_item_view(f, "file_manager"@, "File manager"@, "rtfm"@)],
        },
    ]
}

/// `config[key].as_str().unwrap_or(default)`, as an owned string.
fn text_value(config: &Value, key: &str, default: &str) -> (r: String)
    ensures
        r@ == text_or(json_fields(*config), key@, default@),
{
    match json_get_text(config, key) {
        Some(t) => t,
        None => default.to_owned(),
    }
}

pub fn bool_item(config: &Value, key: &str, label: &str, default: bool) -> (r: Item)
    ensures
        r@ == bool_item_view(json_fields(*config), key@, label@, default),
{
    let val = match json_get_flag(config, key) {
        Some(b) => b,
        None => default,
    };
    Item { key: key.to_owned(), label: label.to_owned(), kind: ItemKind::Bool(val) }
}

pub fn num_item(config: &Value, key: &str, label: &str, default: u64) -> (r: Item)
    ensures
        r@ == num_item_view(json_fields(*config), key@, label@, default),
{
    let val = match json_get_unsigned(config, key) {
        Some(n) => n,
        None => default,
    };
    Item { key: key.to_owned(), label: label.to_owned(), kind: ItemKind::Number(val) }
}

pub fn text_item(config: &Value, key: &str, label: &str, default: &str) -> (r: Item)
    ensures
        r@ == text_item_view(json_fields(*config), key@, label@, default@),
{
    let val = text_value(config, key, default);
    Item { key: key.to_owned(), label: label.to_owned(), kind: ItemKind::Text(val) }
}

fn category(name: &str, items: Vec<Item>) -> (r: Category)
    ensures
        r@ == (CategoryView { name: name@, items: items_view(items@) }),
{
    Category { name: name.to_owned(), items }
}

/// The settings with their values read from `config`.
pub fn build_categories(config: &Value) -> (r: Vec<Category>)
    ensures
        categories_view(r@) == categories_from(json_fields(*config)),
{
    let ghost f = json_fields(*config);
    let theme = vec![item("theme", "Theme", ItemKind::Theme(text_value(config, "theme", "default")))];
    let prompt = vec![
        color_item(config, "c_user", "Username", 2),
        color_item(config, "c_host", "Hostname", 2),
        color_item(config, "c_cwd", "Directory", 81),
        color_item(config, "c_git", "Git branch", 243),
        color_item(config, "c_stamp", "Timestamp", 240),
        color_item(config, "c_prompt", "Prompt >", 208),
        color_item(config, "c_user_root", "Root user", 196),
        color_item(config, "c_host_root", "Root host", 196),
    ];
    let syntax = vec![
        color_item(config, "c_cmd", "Commands", 48),
        color_item(config, "c_nick", "Nicks", 87),
        color_item(config, "c_gnick", "Global nicks", 87),
        color_item(config, "c_path", "Paths", 7),
        color_item(config, "c_switch", "Switches", 220),
        color_item(config, "c_bookmark", "Bookmarks", 51),
        color_item(config, "c_colon", "Colon cmds", 33),
        color_item(config, "c_suggestion", "Suggestions", 240),
    ];
    let tab = vec![
        color_item(config, "c_tabselect", "Selected tab", 214),
        color_item(config, "c_taboption", "Tab options", 244),
        color_item(config, "c_dir", "Directories", 12),
        color_item(config, "c_exec", "Executables", 9),
        color_item(config, "c_file", "Files", 7),
    ];
    let completion = vec![
        bool_item(config, "completion_fuzzy", "Fuzzy match", false),
        bool_item(config, "completion_case_sensitive", "Case sensitive", false),
        num_item(config, "completion_limit", "Max results", 10),
        bool_item(config, "completion_show_metadata", "Show metadata", false),
    ];
    let options = vec!["off".to_owned(), "full".to_owned(), "smart".to_owned()];
    assert(strings_view(options@) =~= dedup_options());
    let behavior = vec![
        bool_item(config, "auto_correct", "Auto correct", false),
        bool_item(config, "auto_pair", "Auto pair", true),
        bool_item(config, "show_tips", "Show tips", true),
        bool_item(config, "show_cmd", "Show command", true),
        bool_item(config, "rprompt", "Right prompt", true),
        num_item(config, "slow_command_threshold", "Slow cmd warn (s)", 0),
        num_item(config, "session_autosave", "Autosave (s)", 0),
        item(
            "history_dedup",
            "History dedup",
            ItemKind::Choice(options, text_value(config, "history_dedup", "smart")),
        ),
    ];
    let paths = vec![text_item(config, "file_manager", "File manager", "rtfm")];
    let ghost expect = categories_from(f);
    assert(items_view(theme@) =~= expect[0].items);
    assert(items_view(prompt@) =~= expect[1].items);
    assert(items_view(syntax@) =~= expect[2].items);
    assert(items_view(tab@) =~= expect[3].items);
    assert(items_view(completion@) =~= expect[4].items);
    assert(items_view(behavior@) =~= expect[5].items);
    assert(items_view(paths@) =~= expect[6].items);
    let r = vec![
        category("Theme", theme),
        category("Prompt Colors", prompt),
        category("Syntax Colors", syntax),
        category("Tab Colors", tab),
        category("Completion", completion),
        category("Behavior", behavior),
        category("Paths", paths),
    ];
    assert(categories_view(r@) =~= expect);
    r
}

} // verus!
