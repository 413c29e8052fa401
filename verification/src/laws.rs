//! Properties of the editor that span several operations.
use vstd::prelude::*;
use crate::app::{
    AppView, next_kind, prev_kind, edited_kind, kind_ok, all_items, write_map, write_doc, item_json,
    item_field, with_kind,
};
use crate::model::{
    KindView, ItemView, CategoryView, categories_from, color_item_view, bool_item_view, num_item_view,
    text_item_view, text_or, dedup_options,
};
use crate::json::{FieldView, JsonView, field_at, no_fields, keyed, obj_map, doc_fields, classify};
use crate::text::{decimal, digits_value, all_digits, parse_unsigned_spec, digit_char, digit_of, is_digit};
use crate::theme::{themes, position_or_zero};

verus! {

/// Whether "next value" followed by "previous value" can give back `k`: a theme
/// must be a built-in one, a choice one of its options, which must be distinct,
/// and a number must be below the largest value.
pub open spec fn reversible(k: KindView) -> bool {
    match k {
        KindView::Number(n) => n < u64::MAX,
        KindView::Theme(t) => themes().contains(t),
        KindView::Choice(o, c) => o.contains(c) && o.no_duplicates(),
        _ => true,
    }
}

proof fn lemma_position_of_member(o: Seq<Seq<char>>, i: int)
    requires
        0 <= i < o.len(),
        o.no_duplicates(),
    ensures
        position_or_zero(o, o[i]) == i,
{
    o.index_of_first_ensures(o[i]);
    assert(o.contains(o[i]));
}

spec fn theme_rank(x: Seq<char>) -> int {
    if x == "default"@ {
        0
    } else if x == "solarized"@ {
        1
    } else if x == "dracula"@ {
        2
    } else if x == "gruvbox"@ {
        3
    } else if x == "nord"@ {
        4
    } else if x == "monokai"@ {
        5
    } else {
        -1
    }
}

proof fn lemma_themes_distinct()
    ensures
        themes().no_duplicates(),
{
    broadcast use vstd::string::group_string_axioms;
    reveal_strlit("default");
    reveal_strlit("solarized");
    reveal_strlit("dracula");
    reveal_strlit("gruvbox");
    reveal_strlit("nord");
    reveal_strlit("monokai");
    let t = themes();
    assert("default"@.len() == 7);
    assert("solarized"@.len() == 9);
    assert("dracula"@.len() == 7);
    assert("gruvbox"@.len() == 7);
    assert("nord"@.len() == 4);
    assert("monokai"@.len() == 7);
    assert("default"@[1] == 'e');
    assert("dracula"@[1] == 'r');
    assert("gruvbox"@[0] == 'g');
    assert("monokai"@[0] == 'm');
    assert("default"@[0] == 'd');
    assert("dracula"@[0] == 'd');
    assert(theme_rank("default"@) == 0);
    assert(theme_rank("solarized"@) == 1);
    assert(theme_rank("dracula"@) == 2);
    assert(theme_rank("gruvbox"@) == 3);
    assert(theme_rank("nord"@) == 4);
    assert(theme_rank("monokai"@) == 5);
    assert forall|i: int| 0 <= i < t.len() implies theme_rank(#[trigger] t[i]) == i by {
        if i == 0 {} else if i == 1 {} else if i == 2 {} else if i == 3 {} else if i == 4 {} else {}
    }
    assert forall|i: int, j: int| 0 <= i < t.len() && 0 <= j < t.len() && i != j implies t[i] != t[j] by {
    }
}

/// "Previous value" undoes "next value" on a value that allows it (see
/// `reversible`).
pub proof fn law_prev_undoes_next(k: KindView)
    requires
        kind_ok(k),
        reversible(k),
    ensures
        prev_kind(next_kind(k)) == k,
{
    match k {
        KindView::Theme(t) => {
            lemma_themes_distinct();
            let p = themes().index_of(t);
            lemma_position_of_member(themes(), p);
            let q = (p + 1) % 6;
            lemma_position_of_member(themes(), q);
        },
        KindView::Choice(o, c) => {
            let p = o.index_of(c);
            lemma_position_of_member(o, p);
            let n = o.len() as int;
            let q = (p + 1) % n;
            assert(0 <= q < n) by (nonlinear_arith)
                requires n > 0, q == (p + 1) % n;
            lemma_position_of_member(o, q);
            assert((q + n - 1) % n == p) by (nonlinear_arith)
                requires 0 <= p < n, q == (p + 1) % n;
        },
        _ => {},
    }
}

/// "Next value" undoes "previous value" on a value that allows it (see
/// `reversible`, where a number must instead be above 0).
pub proof fn law_next_undoes_prev(k: KindView)
    requires
        kind_ok(k),
        match k {
            KindView::Number(n) => n > 0,
            _ => reversible(k),
        },
    ensures
        next_kind(prev_kind(k)) == k,
{
    match k {
        KindView::Theme(t) => {
            lemma_themes_distinct();
            let p = themes().index_of(t);
            lemma_position_of_member(themes(), p);
            let q = (p + 5) % 6;
            lemma_position_of_member(themes(), q);
        },
        KindView::Choice(o, c) => {
            let p = o.index_of(c);
            lemma_position_of_member(o, p);
            let n = o.len() as int;
            let q = (p + n - 1) % n;
            assert(0 <= q < n) by (nonlinear_arith)
                requires n > 0, 0 <= p, q == (p + n - 1) % n;
            lemma_position_of_member(o, q);
            assert((q + 1) % n == p) by (nonlinear_arith)
                requires 0 <= p < n, q == (p + n - 1) % n;
        },
        _ => {},
    }
}

proof fn lemma_decimal_digits(n: nat)
    ensures
        decimal(n).len() > 0,
        all_digits(decimal(n)),
        digits_value(decimal(n)) == n,
    decreases n,
{
    if n < 10 {
        let s = decimal(n);
        assert(s.drop_last() =~= Seq::<char>::empty());
        assert(digit_of(digit_char(n)) == n);
        assert(digits_value(s.drop_last()) == 0);
        assert(s.last() == digit_char(n));
    } else {
        lemma_decimal_digits(n / 10);
        let s = decimal(n);
        assert(s.drop_last() =~= decimal(n / 10));
        assert(digit_of(digit_char(n % 10)) == n % 10);
        assert forall|i: int| 0 <= i < s.len() implies #[trigger] is_digit(s[i]) by {
            if i < s.len() - 1 {
                assert(s[i] == decimal(n / 10)[i]);
            }
        }
    }
}

/// The decimal text of a number parses back to that number, for any bound the
/// number is within: the value offered when editing a number or colour is read
/// back as the same value.
pub proof fn law_decimal_parses_back(n: nat, max: nat)
    requires
        n <= max,
    ensures
        parse_unsigned_spec(decimal(n), max) == Some(n),
{
    lemma_decimal_digits(n);
    let s = decimal(n);
    assert(s[0] != '+') by {
        assert(is_digit(s[0]));
    }
}

/// The keys of all settings, category after category.
pub open spec fn schema_keys() -> Seq<Seq<char>> {
    seq![
        "theme"@,
        "c_user"@,
        "c_host"@,
        "c_cwd"@,
        "c_git"@,
        "c_stamp"@,
        "c_prompt"@,
        "c_user_root"@,
        "c_host_root"@,
        "c_cmd"@,
        "c_nick"@,
        "c_gnick"@,
        "c_path"@,
        "c_switch"@,
        "c_bookmark"@,
        "c_colon"@,
        "c_suggestion"@,
        "c_tabselect"@,
        "c_taboption"@,
        "c_dir"@,
        "c_exec"@,
        "c_file"@,
        "completion_fuzzy"@,
        "completion_case_sensitive"@,
        "completion_limit"@,
        "completion_show_metadata"@,
        "auto_correct"@,
        "auto_pair"@,
        "show_tips"@,
        "show_cmd"@,
        "rprompt"@,
        "slow_command_threshold"@,
        "session_autosave"@,
        "history_dedup"@,
        "file_manager"@,
    ]
}

spec fn key_rank(x: Seq<char>) -> int {
    if x == "theme"@ {
        0
    } else if x == "c_user"@ {
        1
    } else if x == "c_host"@ {
        2
    } else if x == "c_cwd"@ {
        3
    } else if x == "c_git"@ {
        4
    } else if x == "c_stamp"@ {
        5
    } else if x == "c_prompt"@ {
        6
    } else if x == "c_user_root"@ {
        7
    } else if x == "c_host_root"@ {
        8
    } else if x == "c_cmd"@ {
        9
    } else if x == "c_nick"@ {
        10
    } else if x == "c_gnick"@ {
        11
    } else if x == "c_path"@ {
        12
    } else if x == "c_switch"@ {
        13
    } else if x == "c_bookmark"@ {
        14
    } else if x == "c_colon"@ {
        15
    } else if x == "c_suggestion"@ {
        16
    } else if x == "c_tabselect"@ {
        17
    } else if x == "c_taboption"@ {
        18
    } else if x == "c_dir"@ {
        19
    } else if x == "c_exec"@ {
        20
    } else if x == "c_file"@ {
        21
    } else if x == "completion_fuzzy"@ {
        22
    } else if x == "completion_case_sensitive"@ {
        23
    } else if x == "completion_limit"@ {
        24
    } else if x == "completion_show_metadata"@ {
        25
    } else if x == "auto_correct"@ {
        26
    } else if x == "auto_pair"@ {
        27
    } else if x == "show_tips"@ {
        28
    } else if x == "show_cmd"@ {
        29
    } else if x == "rprompt"@ {
        30
    } else if x == "slow_command_threshold"@ {
        31
    } else if x == "session_autosave"@ {
        32
    } else if x == "history_dedup"@ {
        33
    } else if x == "file_manager"@ {
        34
    } else {
        -1
    }
}

/// No two settings share a key.
pub proof fn lemma_schema_keys_distinct()
    ensures
        schema_keys().no_duplicates(),
{
    broadcast use vstd::string::group_string_axioms;

    reveal_strlit("theme");
    reveal_strlit("c_user");
    reveal_strlit("c_host");
    reveal_strlit("c_cwd");
    reveal_strlit("c_git");
    reveal_strlit("c_stamp");
    reveal_strlit("c_prompt");
    reveal_strlit("c_user_root");
    reveal_strlit("c_host_root");
    reveal_strlit("c_cmd");
    reveal_strlit("c_nick");
    reveal_strlit("c_gnick");
    reveal_strlit("c_path");
    reveal_strlit("c_switch");
    reveal_strlit("c_bookmark");
    reveal_strlit("c_colon");
    reveal_strlit("c_suggestion");
    reveal_strlit("c_tabselect");
    reveal_strlit("c_taboption");
    reveal_strlit("c_dir");
    reveal_strlit("c_exec");
    reveal_strlit("c_file");
    reveal_strlit("completion_fuzzy");
    reveal_strlit("completion_case_sensitive");
    reveal_strlit("completion_limit");
    reveal_strlit("completion_show_metadata");
    reveal_strlit("auto_correct");
    reveal_strlit("auto_pair");
    reveal_strlit("show_tips");
    reveal_strlit("show_cmd");
    reveal_strlit("rprompt");
    reveal_strlit("slow_command_threshold");
    reveal_strlit("session_autosave");
    reveal_strlit("history_dedup");
    reveal_strlit("file_manager");
    assert("theme"@.len() == 5);
    assert("c_user"@.len() == 6);
    assert("c_host"@.len() == 6);
    assert("c_cwd"@.len() == 5);
    assert("c_git"@.len() == 5);
    assert("c_stamp"@.len() == 7);
    assert("c_prompt"@.len() == 8);
    assert("c_user_root"@.len() == 11);
    assert("c_host_root"@.len() == 11);
    assert("c_cmd"@.len() == 5);
    assert("c_nick"@.len() == 6);
    assert("c_gnick"@.len() == 7);
    assert("c_path"@.len() == 6);
    assert("c_switch"@.len() == 8);
    assert("c_bookmark"@.len() == 10);
    assert("c_colon"@.len() == 7);
    assert("c_suggestion"@.len() == 12);
    assert("c_tabselect"@.len() == 11);
    assert("c_taboption"@.len() == 11);
    assert("c_dir"@.len() == 5);
    assert("c_exec"@.len() == 6);
    assert("c_file"@.len() == 6);
    assert("completion_fuzzy"@.len() == 16);
    assert("completion_case_sensitive"@.len() == 25);
    assert("completion_limit"@.len() == 16);
    assert("completion_show_metadata"@.len() == 24);
    assert("auto_correct"@.len() == 12);
    assert("auto_pair"@.len() == 9);
    assert("show_tips"@.len() == 9);
    assert("show_cmd"@.len() == 8);
    assert("rprompt"@.len() == 7);
    assert("slow_command_threshold"@.len() == 22);
    assert("session_autosave"@.len() == 16);
    assert("history_dedup"@.len() == 13);
    assert("file_manager"@.len() == 12);
    assert("theme"@[0] == 't');
    assert("c_cwd"@[0] == 'c');
    assert("c_git"@[0] == 'c');
    assert("c_cmd"@[0] == 'c');
    assert("c_dir"@[0] == 'c');
    assert("c_user"@[2] == 'u');
    assert("c_host"@[2] == 'h');
    assert("c_nick"@[2] == 'n');
    assert("c_path"@[2] == 'p');
    assert("c_exec"@[2] == 'e');
    assert("c_file"@[2] == 'f');
    assert("c_cwd"@[2] == 'c');
    assert("c_git"@[2] == 'g');
    assert("c_cwd"@[3] == 'w');
    assert("c_cmd"@[3] == 'm');
    assert("c_dir"@[2] == 'd');
    assert("c_cmd"@[2] == 'c');
    assert("c_stamp"@[2] == 's');
    assert("c_gnick"@[2] == 'g');
    assert("c_colon"@[2] == 'c');
    assert("c_stamp"@[0] == 'c');
    assert("rprompt"@[0] == 'r');
    assert("c_prompt"@[2] == 'p');
    assert("c_switch"@[2] == 's');
    assert("c_prompt"@[0] == 'c');
    assert("show_cmd"@[0] == 's');
    assert("c_user_root"@[2] == 'u');
    assert("c_host_root"@[2] == 'h');
    assert("c_tabselect"@[2] == 't');
    assert("c_taboption"@[2] == 't');
    assert("c_gnick"@[0] == 'c');
    assert("c_switch"@[0] == 'c');
    assert("c_colon"@[0] == 'c');
    assert("c_suggestion"@[0] == 'c');
    assert("auto_correct"@[0] == 'a');
    assert("file_manager"@[0] == 'f');
    assert("c_tabselect"@[5] == 's');
    assert("c_taboption"@[5] == 'o');
    assert("completion_fuzzy"@[11] == 'f');
    assert("completion_limit"@[11] == 'l');
    assert("completion_fuzzy"@[0] == 'c');
    assert("session_autosave"@[0] == 's');
    assert("completion_limit"@[0] == 'c');
    assert("auto_pair"@[0] == 'a');
    assert("show_tips"@[0] == 's');
    assert(key_rank("theme"@) == 0);
    assert(key_rank("c_user"@) == 1);
    assert(key_rank("c_host"@) == 2);
    assert(key_rank("c_cwd"@) == 3);
    assert(key_rank("c_git"@) == 4);
    assert(key_rank("c_stamp"@) == 5);
    assert(key_rank("c_prompt"@) == 6);
    assert(key_rank("c_user_root"@) == 7);
    assert(key_rank("c_host_root"@) == 8);
    assert(key_rank("c_cmd"@) == 9);
    assert(key_rank("c_nick"@) == 10);
    assert(key_rank("c_gnick"@) == 11);
    assert(key_rank("c_path"@) == 12);
    assert(key_rank("c_switch"@) == 13);
    assert(key_rank("c_bookmark"@) == 14);
    assert(key_rank("c_colon"@) == 15);
    assert(key_rank("c_suggestion"@) == 16);
    assert(key_rank("c_tabselect"@) == 17);
    assert(key_rank("c_taboption"@) == 18);
    assert(key_rank("c_dir"@) == 19);
    assert(key_rank("c_exec"@) == 20);
    assert(key_rank("c_file"@) == 21);
    assert(key_rank("completion_fuzzy"@) == 22);
    assert(key_rank("completion_case_sensitive"@) == 23);
    assert(key_rank("completion_limit"@) == 24);
    assert(key_rank("completion_show_metadata"@) == 25);
    assert(key_rank("auto_correct"@) == 26);
    assert(key_rank("auto_pair"@) == 27);
    assert(key_rank("show_tips"@) == 28);
    assert(key_rank("show_cmd"@) == 29);
    assert(key_rank("rprompt"@) == 30);
    assert(key_rank("slow_command_threshold"@) == 31);
    assert(key_rank("session_autosave"@) == 32);
    assert(key_rank("history_dedup"@) == 33);
    assert(key_rank("file_manager"@) == 34);
    let t = schema_keys();
    assert forall|i: int| 0 <= i < t.len() implies key_rank(#[trigger] t[i]) == i by {
        if i == 0 {} else if i == 1 {} else if i == 2 {} else if i == 3 {} else if i == 4 {} else if i == 5 {} else if i == 6 {} else if i == 7 {} else if i == 8 {} else if i == 9 {} else if i == 10 {} else if i == 11 {} else if i == 12 {} else if i == 13 {} else if i == 14 {} else if i == 15 {} else if i == 16 {} else if i == 17 {} else if i == 18 {} else if i == 19 {} else if i == 20 {} else if i == 21 {} else if i == 22 {} else if i == 23 {} else if i == 24 {} else if i == 25 {} else if i == 26 {} else if i == 27 {} else if i == 28 {} else if i == 29 {} else if i == 30 {} else if i == 31 {} else if i == 32 {} else if i == 33 {} else {}
    }
    assert forall|i: int, j: int| 0 <= i < t.len() && 0 <= j < t.len() && i != j implies t[i] != t[j] by {}
}

/// The keys of the given settings, in order.
pub open spec fn item_keys(items: Seq<ItemView>) -> Seq<Seq<char>> {
    items.map_values(|it: ItemView| it.key)
}

/// Whether two objects agree at `k`: both lack it, or both hold the same value.
pub open spec fn agree_at(m1: Map<Seq<char>, JsonView>, m2: Map<Seq<char>, JsonView>, k: Seq<char>) -> bool {
    &&& m1.dom().contains(k) == m2.dom().contains(k)
    &&& m1.dom().contains(k) ==> m1[k] == m2[k]
}

proof fn lemma_write_map_skips(g: Map<Seq<char>, JsonView>, b: Seq<ItemView>, k: Seq<char>)
    requires
        !item_keys(b).contains(k),
    ensures
        agree_at(write_map(g, b), g, k),
    decreases b.len(),
{
    if b.len() > 0 {
        assert(!item_keys(b.drop_last()).contains(k)) by {
            if item_keys(b.drop_last()).contains(k) {
                let i = choose|i: int| 0 <= i < item_keys(b.drop_last()).len() && item_keys(b.drop_last())[i] == k;
                assert(item_keys(b)[i] == k);
            }
        }
        assert(b.last().key != k) by {
            assert(item_keys(b)[b.len() - 1] == b.last().key);
        }
        lemma_write_map_skips(g, b.drop_last(), k);
    }
}

proof fn lemma_write_map_last(g: Map<Seq<char>, JsonView>, b: Seq<ItemView>, j: int)
    requires
        0 <= j < b.len(),
        forall|m: int| j < m < b.len() ==> #[trigger] b[m].key != b[j].key,
    ensures
        write_map(g, b).dom().contains(b[j].key),
        write_map(g, b)[b[j].key] == item_json(b[j].kind),
    decreases b.len(),
{
    if j < b.len() - 1 {
        lemma_write_map_last(g, b.drop_last(), j);
        assert(b.last().key != b[j].key) by {
            assert(b[b.len() - 1].key != b[j].key);
        }
    }
}

/// Writing settings with distinct keys into a document leaves each setting's
/// value under its key.
pub proof fn law_written_settings_read_back(d: JsonView, items: Seq<ItemView>, p: int)
    requires
        item_keys(items).no_duplicates(),
        0 <= p < items.len(),
    ensures
        obj_map(write_doc(d, items)).dom().contains(items[p].key),
        obj_map(write_doc(d, items))[items[p].key] == item_json(items[p].kind),
        doc_fields(write_doc(d, items))[items[p].key] == item_field(items[p].kind),
{
    assert forall|m: int| p < m < items.len() implies #[trigger] items[m].key != items[p].key by {
        assert(item_keys(items)[m] == items[m].key);
        assert(item_keys(items)[p] == items[p].key);
    }
    lemma_write_map_last(obj_map(d), items, p);
}

/// Writing settings into a document that can be written to by key leaves every
/// key that none of them has exactly as it was.
pub proof fn law_other_keys_untouched(d: JsonView, items: Seq<ItemView>, k: Seq<char>)
    requires
        keyed(d),
        !item_keys(items).contains(k),
    ensures
        agree_at(obj_map(write_doc(d, items)), obj_map(d), k),
{
    if items.len() > 0 {
        lemma_write_map_skips(obj_map(d), items, k);
    }
}

proof fn lemma_all_items_concat(a: Seq<CategoryView>, b: Seq<CategoryView>)
    ensures
        all_items(a + b) == all_items(a) + all_items(b),
    decreases b.len(),
{
    if b.len() == 0 {
        assert(a + b =~= a);
        assert(all_items(a) + all_items(b) =~= all_items(a));
    } else {
        assert((a + b).drop_last() =~= a + b.drop_last());
        lemma_all_items_concat(a, b.drop_last());
        assert(all_items(a + b) =~= all_items(a) + all_items(b));
    }
}

/// Where setting `ii` of category `ci` stands among all settings.
pub open spec fn flat_index(cats: Seq<CategoryView>, ci: int, ii: int) -> int {
    all_items(cats.take(ci)).len() + ii
}

proof fn lemma_all_items_index(cats: Seq<CategoryView>, ci: int, ii: int)
    requires
        0 <= ci < cats.len(),
        0 <= ii < cats[ci].items.len(),
    ensures
        0 <= flat_index(cats, ci, ii) < all_items(cats).len(),
        all_items(cats)[flat_index(cats, ci, ii)] == cats[ci].items[ii],
{
    let a = cats.take(ci);
    let b = cats.skip(ci);
    assert(cats =~= a + b);
    lemma_all_items_concat(a, b);
    let c = seq![cats[ci]];
    let d = cats.skip(ci + 1);
    assert(b =~= c + d);
    lemma_all_items_concat(c, d);
    assert(c.drop_last() =~= Seq::<CategoryView>::empty());
    assert(all_items(c.drop_last()) == Seq::<ItemView>::empty());
    assert(all_items(c) =~= cats[ci].items);
}

/// Whether two values are of the same kind (and, for choices, offer the same
/// options).
pub open spec fn same_kind(a: KindView, b: KindView) -> bool {
    match (a, b) {
        (KindView::Color(_), KindView::Color(_)) => true,
        (KindView::Bool(_), KindView::Bool(_)) => true,
        (KindView::Number(_), KindView::Number(_)) => true,
        (KindView::Text(_), KindView::Text(_)) => true,
        (KindView::Theme(_), KindView::Theme(_)) => true,
        (KindView::Choice(o1, _), KindView::Choice(o2, _)) => o1 == o2,
        _ => false,
    }
}

/// The editor's settings with their default values.
pub open spec fn defaults() -> Seq<CategoryView> {
    categories_from(no_fields())
}

/// Whether the settings are laid out as the editor's: the same categories, and
/// in each the same keys, labels and kinds of value, in the same order.
pub open spec fn shaped(cats: Seq<CategoryView>) -> bool {
    let t = defaults();
    &&& cats.len() == t.len()
    &&& forall|ci: int|
        #![trigger cats[ci]]
        0 <= ci < t.len() ==> cats[ci].name == t[ci].name && cats[ci].items.len() == t[ci].items.len()
    &&& forall|ci: int, ii: int|
        #![trigger cats[ci].items[ii]]
        0 <= ci < t.len() && 0 <= ii < t[ci].items.len() ==> {
            &&& cats[ci].items[ii].key == t[ci].items[ii].key
            &&& cats[ci].items[ii].label == t[ci].items[ii].label
            &&& same_kind(cats[ci].items[ii].kind, t[ci].items[ii].kind)
        }
}

proof fn lemma_item_keys_concat(a: Seq<ItemView>, b: Seq<ItemView>)
    ensures
        item_keys(a + b) == item_keys(a) + item_keys(b),
{
    assert(item_keys(a + b) =~= item_keys(a) + item_keys(b));
}

proof fn lemma_keys_of_all_items(a: Seq<CategoryView>, b: Seq<CategoryView>)
    requires
        a.len() == b.len(),
        forall|ci: int| 0 <= ci < a.len() ==> item_keys(#[trigger] a[ci].items) == item_keys(b[ci].items),
    ensures
        item_keys(all_items(a)) == item_keys(all_items(b)),
    decreases a.len(),
{
    if a.len() > 0 {
        lemma_keys_of_all_items(a.drop_last(), b.drop_last());
        lemma_item_keys_concat(all_items(a.drop_last()), a.last().items);
        lemma_item_keys_concat(all_items(b.drop_last()), b.last().items);
        assert(item_keys(a[a.len() - 1].items) == item_keys(b[b.len() - 1].items));
    }
}

proof fn lemma_default_keys()
    ensures
        item_keys(all_items(defaults())) == schema_keys(),
{
    reveal_with_fuel(all_items, 8);
    assert(item_keys(all_items(defaults())) =~= schema_keys());
}

/// The keys of settings laid out as the editor's are the editor's keys, and no
/// two of them are the same.
pub proof fn lemma_shaped_keys(cats: Seq<CategoryView>)
    requires
        shaped(cats),
    ensures
        item_keys(all_items(cats)) == schema_keys(),
        item_keys(all_items(cats)).no_duplicates(),
{
    let t = defaults();
    assert forall|ci: int| 0 <= ci < cats.len() implies item_keys(#[trigger] cats[ci].items) == item_keys(t[ci].items) by {
        assert(cats[ci].items.len() == t[ci].items.len());
        assert forall|ii: int| 0 <= ii < cats[ci].items.len() implies item_keys(cats[ci].items)[ii] == item_keys(t[ci].items)[ii] by {
            assert(cats[ci].items[ii].key == t[ci].items[ii].key);
        }
        assert(item_keys(cats[ci].items) =~= item_keys(t[ci].items));
    }
    lemma_keys_of_all_items(cats, t);
    lemma_default_keys();
    lemma_schema_keys_distinct();
}

/// Settings read from any document are laid out as the editor's.
pub proof fn lemma_read_settings_shaped(g: Map<Seq<char>, FieldView>)
    ensures
        shaped(categories_from(g)),
{
    let c = categories_from(g);
    let t = defaults();
    assert forall|ci: int, ii: int|
        #![trigger c[ci].items[ii]]
        0 <= ci < t.len() && 0 <= ii < t[ci].items.len() implies {
            &&& c[ci].items[ii].key == t[ci].items[ii].key
            &&& c[ci].items[ii].label == t[ci].items[ii].label
            &&& same_kind(c[ci].items[ii].kind, t[ci].items[ii].kind)
        } by {
        if ci == 0 {
        } else if ci == 1 {
        } else if ci == 2 {
        } else if ci == 3 {
        } else if ci == 4 {
        } else if ci == 5 {
        } else {
        }
    }
}


proof fn lemma_color_back(w: Map<Seq<char>, FieldView>, it: ItemView, key: Seq<char>, label: Seq<char>, d: u8)
    requires
        it.key == key,
        it.label == label,
        it.kind is Color,
        field_at(w, key) == item_field(it.kind),
    ensures
        color_item_view(w, key, label, d) == it,
{
}

proof fn lemma_bool_back(w: Map<Seq<char>, FieldView>, it: ItemView, key: Seq<char>, label: Seq<char>, d: bool)
    requires
        it.key == key,
        it.label == label,
        it.kind is Bool,
        field_at(w, key) == item_field(it.kind),
    ensures
        bool_item_view(w, key, label, d) == it,
{
}

proof fn lemma_num_back(w: Map<Seq<char>, FieldView>, it: ItemView, key: Seq<char>, label: Seq<char>, d: u64)
    requires
        it.key == key,
        it.label == label,
        it.kind is Number,
        field_at(w, key) == item_field(it.kind),
    ensures
        num_item_view(w, key, label, d) == it,
{
}

proof fn lemma_text_back(w: Map<Seq<char>, FieldView>, it: ItemView, key: Seq<char>, label: Seq<char>, d: Seq<char>)
    requires
        it.key == key,
        it.label == label,
        it.kind is Text,
        field_at(w, key) == item_field(it.kind),
    ensures
        text_item_view(w, key, label, d) == it,
{
}

proof fn lemma_theme_back(w: Map<Seq<char>, FieldView>, it: ItemView, key: Seq<char>, label: Seq<char>, d: Seq<char>)
    requires
        it.key == key,
        it.label == label,
        it.kind is Theme,
        field_at(w, key) == item_field(it.kind),
    ensures
        (ItemView { key, label, kind: KindView::Theme(text_or(w, key, d)) }) == it,
{
}

proof fn lemma_choice_back(w: Map<Seq<char>, FieldView>, it: ItemView, key: Seq<char>, label: Seq<char>, d: Seq<char>)
    requires
        it.key == key,
        it.label == label,
        it.kind matches KindView::Choice(o, _) && o == dedup_options(),
        field_at(w, key) == item_field(it.kind),
    ensures
        (ItemView { key, label, kind: KindView::Choice(dedup_options(), text_or(w, key, d)) }) == it,
{
}

proof fn lemma_round_trip_category_0(w: Map<Seq<char>, FieldView>, cats: Seq<CategoryView>)
    requires
        shaped(cats),
        forall|ii: int| 0 <= ii < cats[0].items.len() ==> field_at(w, #[trigger] cats[0].items[ii].key) == item_field(cats[0].items[ii].kind),
    ensures
        categories_from(w)[0] == cats[0],
{
    let t = defaults();
    assert(cats[0].items.len() == t[0].items.len());
    let c = cats[0].items;
    assert(c[0].key == t[0].items[0].key && c[0].label == t[0].items[0].label && same_kind(c[0].kind, t[0].items[0].kind));
    assert(field_at(w, c[0].key) == item_field(c[0].kind));
    lemma_theme_back(w, c[0], "theme"@, "Theme"@, "default"@);
    assert(categories_from(w)[0].items =~= cats[0].items);
}

proof fn lemma_round_trip_category_1(w: Map<Seq<char>, FieldView>, cats: Seq<CategoryView>)
    requires
        shaped(cats),
        forall|ii: int| 0 <= ii < cats[1].items.len() ==> field_at(w, #[trigger] cats[1].items[ii].key) == item_field(cats[1].items[ii].kind),
    ensures
        categories_from(w)[1] == cats[1],
{
    let t = defaults();
    assert(cats[1].items.len() == t[1].items.len());
    let c = cats[1].items;
    assert(c[0].key == t[1].items[0].key && c[0].label == t[1].items[0].label && same_kind(c[0].kind, t[1].items[0].kind));
    assert(field_at(w, c[0].key) == item_field(c[0].kind));
    lemma_color_back(w, c[0], "c_user"@, "Username"@, 2);
    assert(c[1].key == t[1].items[1].key && c[1].label == t[1].items[1].label && same_kind(c[1].kind, t[1].items[1].kind));
    assert(field_at(w, c[1].key) == item_field(c[1].kind));
    lemma_color_back(w, c[1], "c_host"@, "Hostname"@, 2);
    assert(c[2].key == t[1].items[2].key && c[2].label == t[1].items[2].label && same_kind(c[2].kind, t[1].items[2].kind));
    assert(field_at(w, c[2].key) == item_field(c[2].kind));
    lemma_color_back(w, c[2], "c_cwd"@, "Directory"@, 81);
    assert(c[3].key == t[1].items[3].key && c[3].label == t[1].items[3].label && same_kind(c[3].kind, t[1].items[3].kind));
    assert(field_at(w, c[3].key) == item_field(c[3].kind));
    lemma_color_back(w, c[3], "c_git"@, "Git branch"@, 243);
    assert(c[4].key == t[1].items[4].key && c[4].label == t[1].items[4].label && same_kind(c[4].kind, t[1].items[4].kind));
    assert(field_at(w, c[4].key) == item_field(c[4].kind));
    lemma_color_back(w, c[4], "c_stamp"@, "Timestamp"@, 240);
    assert(c[5].key == t[1].items[5].key && c[5].label == t[1].items[5].label && same_kind(c[5].kind, t[1].items[5].kind));
    assert(field_at(w, c[5].key) == item_field(c[5].kind));
    lemma_color_back(w, c[5], "c_prompt"@, "Prompt >"@, 208);
    assert(c[6].key == t[1].items[6].key && c[6].label == t[1].items[6].label && same_kind(c[6].kind, t[1].items[6].kind));
    assert(field_at(w, c[6].key) == item_field(c[6].kind));
    lemma_color_back(w, c[6], "c_user_root"@, "Root user"@, 196);
    assert(c[7].key == t[1].items[7].key && c[7].label == t[1].items[7].label && same_kind(c[7].kind, t[1].items[7].kind));
    assert(field_at(w, c[7].key) == item_field(c[7].kind));
    lemma_color_back(w, c[7], "c_host_root"@, "Root host"@, 196);
    assert(categories_from(w)[1].items =~= cats[1].items);
}

proof fn lemma_round_trip_category_2(w: Map<Seq<char>, FieldView>, cats: Seq<CategoryView>)
    requires
        shaped(cats),
        forall|ii: int| 0 <= ii < cats[2].items.len() ==> field_at(w, #[trigger] cats[2].items[ii].key) == item_field(cats[2].items[ii].kind),
    ensures
        categories_from(w)[2] == cats[2],
{
    let t = defaults();
    assert(cats[2].items.len() == t[2].items.len());
    let c = cats[2].items;
    assert(c[0].key == t[2].items[0].key && c[0].label == t[2].items[0].label && same_kind(c[0].kind, t[2].items[0].kind));
    assert(field_at(w, c[0].key) == item_field(c[0].kind));
    lemma_color_back(w, c[0], "c_cmd"@, "Commands"@, 48);
    assert(c[1].key == t[2].items[1].key && c[1].label == t[2].items[1].label && same_kind(c[1].kind, t[2].items[1].kind));
    assert(field_at(w, c[1].key) == item_field(c[1].kind));
    lemma_color_back(w, c[1], "c_nick"@, "Nicks"@, 87);
    assert(c[2].key == t[2].items[2].key && c[2].label == t[2].items[2].label && same_kind(c[2].kind, t[2].items[2].kind));
    assert(field_at(w, c[2].key) == item_field(c[2].kind));
    lemma_color_back(w, c[2], "c_gnick"@, "Global nicks"@, 87);
    assert(c[3].key == t[2].items[3].key && c[3].label == t[2].items[3].label && same_kind(c[3].kind, t[2].items[3].kind));
    assert(field_at(w, c[3].key) == item_field(c[3].kind));
    lemma_color_back(w, c[3], "c_path"@, "Paths"@, 7);
    assert(c[4].key == t[2].items[4].key && c[4].label == t[2].items[4].label && same_kind(c[4].kind, t[2].items[4].kind));
    assert(field_at(w, c[4].key) == item_field(c[4].kind));
    lemma_color_back(w, c[4], "c_switch"@, "Switches"@, 220);
    assert(c[5].key == t[2].items[5].key && c[5].label == t[2].items[5].label && same_kind(c[5].kind, t[2].items[5].kind));
    assert(field_at(w, c[5].key) == item_field(c[5].kind));
    lemma_color_back(w, c[5], "c_bookmark"@, "Bookmarks"@, 51);
    assert(c[6].key == t[2].items[6].key && c[6].label == t[2].items[6].label && same_kind(c[6].kind, t[2].items[6].kind));
    assert(field_at(w, c[6].key) == item_field(c[6].kind));
    lemma_color_back(w, c[6], "c_colon"@, "Colon cmds"@, 33);
    assert(c[7].key == t[2].items[7].key && c[7].label == t[2].items[7].label && same_kind(c[7].kind, t[2].items[7].kind));
    assert(field_at(w, c[7].key) == item_field(c[7].kind));
    lemma_color_back(w, c[7], "c_suggestion"@, "Suggestions"@, 240);
    assert(categories_from(w)[2].items =~= cats[2].items);
}

proof fn lemma_round_trip_category_3(w: Map<Seq<char>, FieldView>, cats: Seq<CategoryView>)
    requires
        shaped(cats),
        forall|ii: int| 0 <= ii < cats[3].items.len() ==> field_at(w, #[trigger] cats[3].items[ii].key) == item_field(cats[3].items[ii].kind),
    ensures
        categories_from(w)[3] == cats[3],
{
    let t = defaults();
    assert(cats[3].items.len() == t[3].items.len());
    let c = cats[3].items;
    assert(c[0].key == t[3].items[0].key && c[0].label == t[3].items[0].label && same_kind(c[0].kind, t[3].items[0].kind));
    assert(field_at(w, c[0].key) == item_field(c[0].kind));
    lemma_color_back(w, c[0], "c_tabselect"@, "Selected tab"@, 214);
    assert(c[1].key == t[3].items[1].key && c[1].label == t[3].items[1].label && same_kind(c[1].kind, t[3].items[1].kind));
    assert(field_at(w, c[1].key) == item_field(c[1].kind));
    lemma_color_back(w, c[1], "c_taboption"@, "Tab options"@, 244);
    assert(c[2].key == t[3].items[2].key && c[2].label == t[3].items[2].label && same_kind(c[2].kind, t[3].items[2].kind));
    assert(field_at(w, c[2].key) == item_field(c[2].kind));
    lemma_color_back(w, c[2], "c_dir"@, "Directories"@, 12);
    assert(c[3].key == t[3].items[3].key && c[3].label == t[3].items[3].label && same_kind(c[3].kind, t[3].items[3].kind));
    assert(field_at(w, c[3].key) == item_field(c[3].kind));
    lemma_color_back(w, c[3], "c_exec"@, "Executables"@, 9);
    assert(c[4].key == t[3].items[4].key && c[4].label == t[3].items[4].label && same_kind(c[4].kind, t[3].items[4].kind));
    assert(field_at(w, c[4].key) == item_field(c[4].kind));
    lemma_color_back(w, c[4], "c_file"@, "Files"@, 7);
    assert(categories_from(w)[3].items =~= cats[3].items);
}

proof fn lemma_round_trip_category_4(w: Map<Seq<char>, FieldView>, cats: Seq<CategoryView>)
    requires
        shaped(cats),
        forall|ii: int| 0 <= ii < cats[4].items.len() ==> field_at(w, #[trigger] cats[4].items[ii].key) == item_field(cats[4].items[ii].kind),
    ensures
        categories_from(w)[4] == cats[4],
{
    let t = defaults();
    assert(cats[4].items.len() == t[4].items.len());
    let c = cats[4].items;
    assert(c[0].key == t[4].items[0].key && c[0].label == t[4].items[0].label && same_kind(c[0].kind, t[4].items[0].kind));
    assert(field_at(w, c[0].key) == item_field(c[0].kind));
    lemma_bool_back(w, c[0], "completion_fuzzy"@, "Fuzzy match"@, false);
    assert(c[1].key == t[4].items[1].key && c[1].label == t[4].items[1].label && same_kind(c[1].kind, t[4].items[1].kind));
    assert(field_at(w, c[1].key) == item_field(c[1].kind));
    lemma_bool_back(w, c[1], "completion_case_sensitive"@, "Case sensitive"@, false);
    assert(c[2].key == t[4].items[2].key && c[2].label == t[4].items[2].label && same_kind(c[2].kind, t[4].items[2].kind));
    assert(field_at(w, c[2].key) == item_field(c[2].kind));
    lemma_num_back(w, c[2], "completion_limit"@, "Max results"@, 10);
    assert(c[3].key == t[4].items[3].key && c[3].label == t[4].items[3].label && same_kind(c[3].kind, t[4].items[3].kind));
    assert(field_at(w, c[3].key) == item_field(c[3].kind));
    lemma_bool_back(w, c[3], "completion_show_metadata"@, "Show metadata"@, false);
    assert(categories_from(w)[4].items =~= cats[4].items);
}

proof fn lemma_round_trip_category_5(w: Map<Seq<char>, FieldView>, cats: Seq<CategoryView>)
    requires
        shaped(cats),
        forall|ii: int| 0 <= ii < cats[5].items.len() ==> field_at(w, #[trigger] cats[5].items[ii].key) == item_field(cats[5].items[ii].kind),
    ensures
        categories_from(w)[5] == cats[5],
{
    let t = defaults();
    assert(cats[5].items.len() == t[5].items.len());
    let c = cats[5].items;
    assert(c[0].key == t[5].items[0].key && c[0].label == t[5].items[0].label && same_kind(c[0].kind, t[5].items[0].kind));
    assert(field_at(w, c[0].key) == item_field(c[0].kind));
    lemma_bool_back(w, c[0], "auto_correct"@, "Auto correct"@, false);
    assert(c[1].key == t[5].items[1].key && c[1].label == t[5].items[1].label && same_kind(c[1].kind, t[5].items[1].kind));
    assert(field_at(w, c[1].key) == item_field(c[1].kind));
    lemma_bool_back(w, c[1], "auto_pair"@, "Auto pair"@, true);
    assert(c[2].key == t[5].items[2].key && c[2].label == t[5].items[2].label && same_kind(c[2].kind, t[5].items[2].kind));
    assert(field_at(w, c[2].key) == item_field(c[2].kind));
    lemma_bool_back(w, c[2], "show_tips"@, "Show tips"@, true);
    assert(c[3].key == t[5].items[3].key && c[3].label == t[5].items[3].label && same_kind(c[3].kind, t[5].items[3].kind));
    assert(field_at(w, c[3].key) == item_field(c[3].kind));
    lemma_bool_back(w, c[3], "show_cmd"@, "Show command"@, true);
    assert(c[4].key == t[5].items[4].key && c[4].label == t[5].items[4].label && same_kind(c[4].kind, t[5].items[4].kind));
    assert(field_at(w, c[4].key) == item_field(c[4].kind));
    lemma_bool_back(w, c[4], "rprompt"@, "Right prompt"@, true);
    assert(c[5].key == t[5].items[5].key && c[5].label == t[5].items[5].label && same_kind(c[5].kind, t[5].items[5].kind));
    assert(field_at(w, c[5].key) == item_field(c[5].kind));
    lemma_num_back(w, c[5], "slow_command_threshold"@, "Slow cmd warn (s)"@, 0);
    assert(c[6].key == t[5].items[6].key && c[6].label == t[5].items[6].label && same_kind(c[6].kind, t[5].items[6].kind));
    assert(field_at(w, c[6].key) == item_field(c[6].kind));
    lemma_num_back(w, c[6], "session_autosave"@, "Autosave (s)"@, 0);
    assert(c[7].key == t[5].items[7].key && c[7].label == t[5].items[7].label && same_kind(c[7].kind, t[5].items[7].kind));
    assert(field_at(w, c[7].key) == item_field(c[7].kind));
    lemma_choice_back(w, c[7], "history_dedup"@, "History dedup"@, "smart"@);
    assert(categories_from(w)[5].items =~= cats[5].items);
}

proof fn lemma_round_trip_category_6(w: Map<Seq<char>, FieldView>, cats: Seq<CategoryView>)
    requires
        shaped(cats),
        forall|ii: int| 0 <= ii < cats[6].items.len() ==> field_at(w, #[trigger] cats[6].items[ii].key) == item_field(cats[6].items[ii].kind),
    ensures
        categories_from(w)[6] == cats[6],
{
    let t = defaults();
    assert(cats[6].items.len() == t[6].items.len());
    let c = cats[6].items;
    assert(c[0].key == t[6].items[0].key && c[0].label == t[6].items[0].label && same_kind(c[0].kind, t[6].items[0].kind));
    assert(field_at(w, c[0].key) == item_field(c[0].kind));
    lemma_text_back(w, c[0], "file_manager"@, "File manager"@, "rtfm"@);
    assert(categories_from(w)[6].items =~= cats[6].items);
}

/// Writing settings laid out as the editor's into any document and reading the
/// settings back from it gives the same settings.
pub proof fn law_settings_round_trip(d: JsonView, cats: Seq<CategoryView>)
    requires
        shaped(cats),
    ensures
        categories_from(doc_fields(write_doc(d, all_items(cats)))) == cats,
{
    let x = all_items(cats);
    let w = doc_fields(write_doc(d, x));
    lemma_shaped_keys(cats);
    assert forall|ci: int, ii: int|
        0 <= ci < cats.len() && 0 <= ii < cats[ci].items.len() implies field_at(w, #[trigger] cats[ci].items[ii].key)
            == item_field(cats[ci].items[ii].kind) by {
        lemma_all_items_index(cats, ci, ii);
        law_written_settings_read_back(d, x, flat_index(cats, ci, ii));
    }
    lemma_round_trip_category_0(w, cats);
    lemma_round_trip_category_1(w, cats);
    lemma_round_trip_category_2(w, cats);
    lemma_round_trip_category_3(w, cats);
    lemma_round_trip_category_4(w, cats);
    lemma_round_trip_category_5(w, cats);
    lemma_round_trip_category_6(w, cats);
    assert(categories_from(w) =~= cats);
}

/// Cycling or editing a value keeps its kind (and a choice's options).
pub proof fn lemma_changes_keep_kind(k: KindView, answer: Seq<char>)
    ensures
        same_kind(next_kind(k), k),
        same_kind(prev_kind(k), k),
        same_kind(edited_kind(k, answer), k),
{
}

proof fn lemma_same_kind_trans(a: KindView, b: KindView, c: KindView)
    requires
        same_kind(a, b),
        same_kind(b, c),
    ensures
        same_kind(a, c),
{
}

/// Giving one setting a value of its kind keeps the settings laid out as the
/// editor's.
pub proof fn lemma_with_kind_shaped(cats: Seq<CategoryView>, ci: int, ii: int, k: KindView)
    requires
        shaped(cats),
        0 <= ci < cats.len(),
        0 <= ii < cats[ci].items.len(),
        same_kind(k, cats[ci].items[ii].kind),
    ensures
        shaped(with_kind(cats, ci, ii, k)),
{
    let c = with_kind(cats, ci, ii, k);
    let t = defaults();
    assert forall|cj: int| #![trigger c[cj]] 0 <= cj < t.len() implies c[cj].name == t[cj].name
        && c[cj].items.len() == t[cj].items.len() by {
        assert(cats[cj].name == t[cj].name);
    }
    assert forall|cj: int, ij: int|
        #![trigger c[cj].items[ij]]
        0 <= cj < t.len() && 0 <= ij < t[cj].items.len() implies {
            &&& c[cj].items[ij].key == t[cj].items[ij].key
            &&& c[cj].items[ij].label == t[cj].items[ij].label
            &&& same_kind(c[cj].items[ij].kind, t[cj].items[ij].kind)
        } by {
        assert(cats[cj].items.len() == t[cj].items.len());
        let o = cats[cj].items[ij];
        if cj == ci && ij == ii {
            lemma_same_kind_trans(k, o.kind, t[cj].items[ij].kind);
        }
    }
}

/// Whether the settings are those the configuration document holds (each read
/// from it with its default).
pub open spec fn faithful(v: AppView) -> bool {
    v.categories == categories_from(v.fields())
}

/// The settings always are what the configuration document holds: the editor
/// starts so, and giving the selected setting any value of its kind, as cycling
/// and editing do, keeps it so, since the change is written into the document.
pub proof fn law_changes_stay_in_document(v: AppView, k: KindView, mark: bool)
    requires
        v.wf(),
        faithful(v),
        same_kind(k, v.current().kind),
    ensures
        faithful(v.after_change(k, mark)),
{
    lemma_read_settings_shaped(v.fields());
    lemma_with_kind_shaped(v.categories, v.cat_index, v.item_index, k);
    let cats = with_kind(v.categories, v.cat_index, v.item_index, k);
    law_settings_round_trip(v.doc, cats);
}

/// Writing the settings into the document keeps them what the document holds.
pub proof fn law_apply_stays_in_document(v: AppView)
    requires
        faithful(v),
    ensures
        faithful(AppView { doc: v.applied(), ..v }),
{
    lemma_read_settings_shaped(v.fields());
    law_settings_round_trip(v.doc, v.categories);
}

/// What a save writes gives back the settings: a document read back from the
/// saved text, holding what the document with every setting written into it
/// holds, gives the editor's settings.
pub proof fn law_saved_text_reloads_settings(v: AppView, w: JsonView)
    requires
        faithful(v),
        doc_fields(w) == doc_fields(v.applied()),
    ensures
        categories_from(doc_fields(w)) == v.categories,
{
    lemma_read_settings_shaped(v.fields());
    law_settings_round_trip(v.doc, v.categories);
}

proof fn lemma_write_map_covers(g: Map<Seq<char>, JsonView>, h: Map<Seq<char>, JsonView>, b: Seq<ItemView>, k: Seq<char>)
    requires
        item_keys(b).contains(k),
    ensures
        agree_at(write_map(g, b), write_map(h, b), k),
    decreases b.len(),
{
    if b.last().key != k {
        let i = choose|i: int| 0 <= i < item_keys(b).len() && item_keys(b)[i] == k;
        assert(i != b.len() - 1);
        assert(item_keys(b.drop_last())[i] == k);
        lemma_write_map_covers(g, h, b.drop_last(), k);
    }
}

/// Writing settings with the same keys a second time overrides the first write
/// entirely: the document is the one the second write alone gives.
pub proof fn law_second_write_overrides(d: JsonView, a: Seq<ItemView>, b: Seq<ItemView>)
    requires
        item_keys(a) == item_keys(b),
    ensures
        write_doc(write_doc(d, a), b) == write_doc(d, b),
{
    assert(a.len() == item_keys(a).len());
    if b.len() > 0 {
        let f = obj_map(d);
        let g = write_map(f, a);
        let m1 = write_map(g, b);
        let m2 = write_map(f, b);
        assert forall|k: Seq<char>|
            #![trigger m1.dom().contains(k)]
            #![trigger m2.dom().contains(k)]
            m1.dom().contains(k) == m2.dom().contains(k) && (m1.dom().contains(k) ==> m1[k] == m2[k]) by {
            if item_keys(b).contains(k) {
                lemma_write_map_covers(g, f, b, k);
            } else {
                lemma_write_map_skips(g, b, k);
                lemma_write_map_skips(f, b, k);
                lemma_write_map_skips(f, a, k);
            }
            assert(agree_at(m1, m2, k));
        }
        assert(m1 =~= m2);
    }
}

/// Writing the settings into the document twice gives the document one write
/// gives.
pub proof fn law_apply_twice_is_apply_once(v: AppView)
    ensures
        (AppView { doc: v.applied(), ..v }).applied() == v.applied(),
{
    law_second_write_overrides(v.doc, all_items(v.categories), all_items(v.categories));
}

proof fn lemma_write_map_matching(m: Map<Seq<char>, JsonView>, items: Seq<ItemView>)
    requires
        forall|p: int| 0 <= p < items.len() ==> m.dom().contains(#[trigger] items[p].key) && m[items[p].key]
            == item_json(items[p].kind),
    ensures
        write_map(m, items) == m,
    decreases items.len(),
{
    if items.len() > 0 {
        lemma_write_map_matching(m, items.drop_last());
        let x = items.last();
        assert(items[items.len() - 1] == x);
        assert(m.insert(x.key, item_json(x.kind)) =~= m);
    }
}

/// Writing settings into an object that already holds each of their values
/// under their keys leaves it as it was: syncing a document that holds the
/// settings changes nothing.
pub proof fn law_sync_of_matching_document(d: JsonView, items: Seq<ItemView>)
    requires
        d is Object,
        forall|p: int| 0 <= p < items.len() ==> obj_map(d).dom().contains(#[trigger] items[p].key) && obj_map(d)[items[p].key]
            == item_json(items[p].kind),
    ensures
        write_doc(d, items) == d,
{
    lemma_write_map_matching(obj_map(d), items);
}

proof fn lemma_all_items_member(cats: Seq<CategoryView>, p: int) -> (r: (int, int))
    requires
        0 <= p < all_items(cats).len(),
    ensures
        0 <= r.0 < cats.len(),
        0 <= r.1 < cats[r.0].items.len(),
        all_items(cats)[p] == cats[r.0].items[r.1],
    decreases cats.len(),
{
    let pre = all_items(cats.drop_last());
    if p < pre.len() {
        let (ci, ii) = lemma_all_items_member(cats.drop_last(), p);
        (ci, ii)
    } else {
        (cats.len() - 1, p - pre.len())
    }
}

/// Whether a value is of the type that a setting of kind `k` reads: an integer
/// below 256 for a colour, a boolean for a flag, an integer for a number, a
/// string for a text, a theme or a choice.
pub open spec fn fits(k: KindView, x: JsonView) -> bool {
    match k {
        KindView::Color(_) => x matches JsonView::Unsigned(n) && n < 256,
        KindView::Bool(_) => x is Bool,
        KindView::Number(_) => x is Unsigned,
        _ => x is Str,
    }
}

/// Whether the document is an object that holds, under every setting's key, a
/// value of the type that setting reads.
pub open spec fn well_typed(d: JsonView) -> bool {
    &&& d is Object
    &&& forall|ci: int, ii: int|
        #![trigger defaults()[ci].items[ii]]
        0 <= ci < defaults().len() && 0 <= ii < defaults()[ci].items.len() ==> {
            &&& obj_map(d).dom().contains(defaults()[ci].items[ii].key)
            &&& fits(defaults()[ci].items[ii].kind, obj_map(d)[defaults()[ci].items[ii].key])
        }
}

/// Whether the document holds, under the setting's key, exactly the value the
/// setting is written as.
pub open spec fn holds_setting(d: JsonView, it: ItemView) -> bool {
    obj_map(d).dom().contains(it.key) && obj_map(d)[it.key] == item_json(it.kind)
}

proof fn lemma_color_loaded(d: JsonView, key: Seq<char>, label: Seq<char>, dft: u8)
    requires
        obj_map(d).dom().contains(key),
        fits(KindView::Color(0), obj_map(d)[key]),
    ensures
        holds_setting(d, color_item_view(doc_fields(d), key, label, dft)),
{
    assert(doc_fields(d)[key] == classify(obj_map(d)[key]));
}

proof fn lemma_bool_loaded(d: JsonView, key: Seq<char>, label: Seq<char>, dft: bool)
    requires
        obj_map(d).dom().contains(key),
        fits(KindView::Bool(false), obj_map(d)[key]),
    ensures
        holds_setting(d, bool_item_view(doc_fields(d), key, label, dft)),
{
    assert(doc_fields(d)[key] == classify(obj_map(d)[key]));
}

proof fn lemma_num_loaded(d: JsonView, key: Seq<char>, label: Seq<char>, dft: u64)
    requires
        obj_map(d).dom().contains(key),
        fits(KindView::Number(0), obj_map(d)[key]),
    ensures
        holds_setting(d, num_item_view(doc_fields(d), key, label, dft)),
{
    assert(doc_fields(d)[key] == classify(obj_map(d)[key]));
}

proof fn lemma_text_loaded(d: JsonView, key: Seq<char>, label: Seq<char>, dft: Seq<char>)
    requires
        obj_map(d).dom().contains(key),
        fits(KindView::Text(Seq::empty()), obj_map(d)[key]),
    ensures
        holds_setting(d, text_item_view(doc_fields(d), key, label, dft)),
{
    assert(doc_fields(d)[key] == classify(obj_map(d)[key]));
}

proof fn lemma_theme_loaded(d: JsonView, key: Seq<char>, label: Seq<char>, dft: Seq<char>)
    requires
        obj_map(d).dom().contains(key),
        fits(KindView::Theme(Seq::empty()), obj_map(d)[key]),
    ensures
        holds_setting(d, (ItemView { key, label, kind: KindView::Theme(text_or(doc_fields(d), key, dft)) })),
{
    assert(doc_fields(d)[key] == classify(obj_map(d)[key]));
}

proof fn lemma_choice_loaded(d: JsonView, key: Seq<char>, label: Seq<char>, dft: Seq<char>)
    requires
        obj_map(d).dom().contains(key),
        fits(KindView::Text(Seq::empty()), obj_map(d)[key]),
    ensures
        holds_setting(d, (ItemView { key, label, kind: KindView::Choice(dedup_options(), text_or(doc_fields(d), key, dft)) })),
{
    assert(doc_fields(d)[key] == classify(obj_map(d)[key]));
}

proof fn lemma_loaded_category_0(d: JsonView)
    requires
        well_typed(d),
    ensures
        forall|ii: int| 0 <= ii < categories_from(doc_fields(d))[0].items.len() ==> holds_setting(
            d,
            #[trigger] categories_from(doc_fields(d))[0].items[ii],
        ),
{
    let t = defaults();
    let c = categories_from(doc_fields(d))[0].items;
    assert(t[0].items[0].key == "theme"@);
    lemma_theme_loaded(d, "theme"@, "Theme"@, "default"@);
    assert forall|ii: int| 0 <= ii < c.len() implies holds_setting(d, #[trigger] c[ii]) by {
        
    }
}

proof fn lemma_loaded_category_1(d: JsonView)
    requires
        well_typed(d),
    ensures
        forall|ii: int| 0 <= ii < categories_from(doc_fields(d))[1].items.len() ==> holds_setting(
            d,
            #[trigger] categories_from(doc_fields(d))[1].items[ii],
        ),
{
    let t = defaults();
    let c = categories_from(doc_fields(d))[1].items;
    assert(t[1].items[0].key == "c_user"@);
    lemma_color_loaded(d, "c_user"@, "Username"@, 2);
    assert(t[1].items[1].key == "c_host"@);
    lemma_color_loaded(d, "c_host"@, "Hostname"@, 2);
    assert(t[1].items[2].key == "c_cwd"@);
    lemma_color_loaded(d, "c_cwd"@, "Directory"@, 81);
    assert(t[1].items[3].key == "c_git"@);
    lemma_color_loaded(d, "c_git"@, "Git branch"@, 243);
    assert(t[1].items[4].key == "c_stamp"@);
    lemma_color_loaded(d, "c_stamp"@, "Timestamp"@, 240);
    assert(t[1].items[5].key == "c_prompt"@);
    lemma_color_loaded(d, "c_prompt"@, "Prompt >"@, 208);
    assert(t[1].items[6].key == "c_user_root"@);
    lemma_color_loaded(d, "c_user_root"@, "Root user"@, 196);
    assert(t[1].items[7].key == "c_host_root"@);
    lemma_color_loaded(d, "c_host_root"@, "Root host"@, 196);
    assert forall|ii: int| 0 <= ii < c.len() implies holds_setting(d, #[trigger] c[ii]) by {
        if ii == 0 {
        } else if ii == 1 {
        } else if ii == 2 {
        } else if ii == 3 {
        } else if ii == 4 {
        } else if ii == 5 {
        } else if ii == 6 {
        } else {
        }
    }
}

proof fn lemma_loaded_category_2(d: JsonView)
    requires
        well_typed(d),
    ensures
        forall|ii: int| 0 <= ii < categories_from(doc_fields(d))[2].items.len() ==> holds_setting(
            d,
            #[trigger] categories_from(doc_fields(d))[2].items[ii],
        ),
{
    let t = defaults();
    let c = categories_from(doc_fields(d))[2].items;
    assert(t[2].items[0].key == "c_cmd"@);
    lemma_color_loaded(d, "c_cmd"@, "Commands"@, 48);
    assert(t[2].items[1].key == "c_nick"@);
    lemma_color_loaded(d, "c_nick"@, "Nicks"@, 87);
    assert(t[2].items[2].key == "c_gnick"@);
    lemma_color_loaded(d, "c_gnick"@, "Global nicks"@, 87);
    assert(t[2].items[3].key == "c_path"@);
    lemma_color_loaded(d, "c_path"@, "Paths"@, 7);
    assert(t[2].items[4].key == "c_switch"@);
    lemma_color_loaded(d, "c_switch"@, "Switches"@, 220);
    assert(t[2].items[5].key == "c_bookmark"@);
    lemma_color_loaded(d, "c_bookmark"@, "Bookmarks"@, 51);
    assert(t[2].items[6].key == "c_colon"@);
    lemma_color_loaded(d, "c_colon"@, "Colon cmds"@, 33);
    assert(t[2].items[7].key == "c_suggestion"@);
    lemma_color_loaded(d, "c_suggestion"@, "Suggestions"@, 240);
    assert forall|ii: int| 0 <= ii < c.len() implies holds_setting(d, #[trigger] c[ii]) by {
        if ii == 0 {
        } else if ii == 1 {
        } else if ii == 2 {
        } else if ii == 3 {
        } else if ii == 4 {
        } else if ii == 5 {
        } else if ii == 6 {
        } else {
        }
    }
}

proof fn lemma_loaded_category_3(d: JsonView)
    requires
        well_typed(d),
    ensures
        forall|ii: int| 0 <= ii < categories_from(doc_fields(d))[3].items.len() ==> holds_setting(
            d,
            #[trigger] categories_from(doc_fields(d))[3].items[ii],
        ),
{
    let t = defaults();
    let c = categories_from(doc_fields(d))[3].items;
    assert(t[3].items[0].key == "c_tabselect"@);
    lemma_color_loaded(d, "c_tabselect"@, "Selected tab"@, 214);
    assert(t[3].items[1].key == "c_taboption"@);
    lemma_color_loaded(d, "c_taboption"@, "Tab options"@, 244);
    assert(t[3].items[2].key == "c_dir"@);
    lemma_color_loaded(d, "c_dir"@, "Directories"@, 12);
    assert(t[3].items[3].key == "c_exec"@);
    lemma_color_loaded(d, "c_exec"@, "Executables"@, 9);
    assert(t[3].items[4].key == "c_file"@);
    lemma_color_loaded(d, "c_file"@, "Files"@, 7);
    assert forall|ii: int| 0 <= ii < c.len() implies holds_setting(d, #[trigger] c[ii]) by {
        if ii == 0 {
        } else if ii == 1 {
        } else if ii == 2 {
        } else if ii == 3 {
        } else {
        }
    }
}

proof fn lemma_loaded_category_4(d: JsonView)
    requires
        well_typed(d),
    ensures
        forall|ii: int| 0 <= ii < categories_from(doc_fields(d))[4].items.len() ==> holds_setting(
            d,
            #[trigger] categories_from(doc_fields(d))[4].items[ii],
        ),
{
    let t = defaults();
    let c = categories_from(doc_fields(d))[4].items;
    assert(t[4].items[0].key == "completion_fuzzy"@);
    lemma_bool_loaded(d, "completion_fuzzy"@, "Fuzzy match"@, false);
    assert(t[4].items[1].key == "completion_case_sensitive"@);
    lemma_bool_loaded(d, "completion_case_sensitive"@, "Case sensitive"@, false);
    assert(t[4].items[2].key == "completion_limit"@);
    lemma_num_loaded(d, "completion_limit"@, "Max results"@, 10);
    assert(t[4].items[3].key == "completion_show_metadata"@);
    lemma_bool_loaded(d, "completion_show_metadata"@, "Show metadata"@, false);
    assert forall|ii: int| 0 <= ii < c.len() implies holds_setting(d, #[trigger] c[ii]) by {
        if ii == 0 {
        } else if ii == 1 {
        } else if ii == 2 {
        } else {
        }
    }
}

proof fn lemma_loaded_category_5(d: JsonView)
    requires
        well_typed(d),
    ensures
        forall|ii: int| 0 <= ii < categories_from(doc_fields(d))[5].items.len() ==> holds_setting(
            d,
            #[trigger] categories_from(doc_fields(d))[5].items[ii],
        ),
{
    let t = defaults();
    let c = categories_from(doc_fields(d))[5].items;
    assert(t[5].items[0].key == "auto_correct"@);
    lemma_bool_loaded(d, "auto_correct"@, "Auto correct"@, false);
    assert(t[5].items[1].key == "auto_pair"@);
    lemma_bool_loaded(d, "auto_pair"@, "Auto pair"@, true);
    assert(t[5].items[2].key == "show_tips"@);
    lemma_bool_loaded(d, "show_tips"@, "Show tips"@, true);
    assert(t[5].items[3].key == "show_cmd"@);
    lemma_bool_loaded(d, "show_cmd"@, "Show command"@, true);
    assert(t[5].items[4].key == "rprompt"@);
    lemma_bool_loaded(d, "rprompt"@, "Right prompt"@, true);
    assert(t[5].items[5].key == "slow_command_threshold"@);
    lemma_num_loaded(d, "slow_command_threshold"@, "Slow cmd warn (s)"@, 0);
    assert(t[5].items[6].key == "session_autosave"@);
    lemma_num_loaded(d, "session_autosave"@, "Autosave (s)"@, 0);
    assert(t[5].items[7].key == "history_dedup"@);
    lemma_choice_loaded(d, "history_dedup"@, "History dedup"@, "smart"@);
    assert forall|ii: int| 0 <= ii < c.len() implies holds_setting(d, #[trigger] c[ii]) by {
        if ii == 0 {
        } else if ii == 1 {
        } else if ii == 2 {
        } else if ii == 3 {
        } else if ii == 4 {
        } else if ii == 5 {
        } else if ii == 6 {
        } else {
        }
    }
}

proof fn lemma_loaded_category_6(d: JsonView)
    requires
        well_typed(d),
    ensures
        forall|ii: int| 0 <= ii < categories_from(doc_fields(d))[6].items.len() ==> holds_setting(
            d,
            #[trigger] categories_from(doc_fields(d))[6].items[ii],
        ),
{
    let t = defaults();
    let c = categories_from(doc_fields(d))[6].items;
    assert(t[6].items[0].key == "file_manager"@);
    lemma_text_loaded(d, "file_manager"@, "File manager"@, "rtfm"@);
    assert forall|ii: int| 0 <= ii < c.len() implies holds_setting(d, #[trigger] c[ii]) by {
        
    }
}

/// Syncing a freshly loaded, well-typed configuration changes nothing: the
/// settings read from a document that holds a value of the right type under
/// every setting's key, written back into it, give the very same document.
pub proof fn law_sync_of_loaded_document(d: JsonView)
    requires
        well_typed(d),
    ensures
        write_doc(d, all_items(categories_from(doc_fields(d)))) == d,
{
    let c = categories_from(doc_fields(d));
    lemma_loaded_category_0(d);
    lemma_loaded_category_1(d);
    lemma_loaded_category_2(d);
    lemma_loaded_category_3(d);
    lemma_loaded_category_4(d);
    lemma_loaded_category_5(d);
    lemma_loaded_category_6(d);
    let x = all_items(c);
    let m = obj_map(d);
    assert forall|p: int| 0 <= p < x.len() implies m.dom().contains(#[trigger] x[p].key) && m[x[p].key]
        == item_json(x[p].kind) by {
        let (ci, ii) = lemma_all_items_member(c, p);
        assert(c[ci].items[ii] == x[p]);
        assert(holds_setting(d, c[ci].items[ii]));
    }
    law_sync_of_matching_document(d, x);
}

proof fn lemma_with_kind_keys(cats: Seq<CategoryView>, ci: int, ii: int, k: KindView)
    requires
        0 <= ci < cats.len(),
        0 <= ii < cats[ci].items.len(),
    ensures
        item_keys(all_items(with_kind(cats, ci, ii, k))) == item_keys(all_items(cats)),
{
    let c = with_kind(cats, ci, ii, k);
    assert forall|cj: int| 0 <= cj < c.len() implies item_keys(#[trigger] c[cj].items) == item_keys(cats[cj].items) by {
        assert(item_keys(c[cj].items) =~= item_keys(cats[cj].items));
    }
    lemma_keys_of_all_items(c, cats);
}

/// "Next value" then "previous value" on a setting that allows it (see
/// `reversible`) gives back the settings and the selection, with every setting
/// written into the document, and the settings marked as modified when the
/// setting is not a text.
pub proof fn law_next_then_prev_restores(v: AppView)
    requires
        v.wf(),
        kind_ok(v.current().kind),
        reversible(v.current().kind),
    ensures
        ({
            let a = v.after_change(next_kind(v.current().kind), crate::app::cycles(v.current().kind));
            let b = a.after_change(prev_kind(a.current().kind), crate::app::cycles(a.current().kind));
            &&& b.categories == v.categories
            &&& b.doc == v.applied()
            &&& b.cat_index == v.cat_index
            &&& b.item_index == v.item_index
            &&& b.dirty == (v.dirty || crate::app::cycles(v.current().kind))
        }),
{
    let c = v.current().kind;
    let ci = v.cat_index;
    let ii = v.item_index;
    let a = v.after_change(next_kind(c), crate::app::cycles(c));
    law_prev_undoes_next(c);
    assert(a.current().kind == next_kind(c));
    let cats2 = with_kind(a.categories, ci, ii, prev_kind(next_kind(c)));
    assert(a.categories[ci].items.update(ii, ItemView { key: v.current().key, label: v.current().label, kind: c }) =~= v.categories[ci].items);
    assert(cats2 =~= v.categories);
    lemma_with_kind_keys(v.categories, ci, ii, next_kind(c));
    law_second_write_overrides(v.doc, all_items(a.categories), all_items(v.categories));
}

/// Moving up after moving down gives back the selection, unless the selected
/// setting was the last of its category.
pub proof fn law_up_undoes_down(v: AppView)
    requires
        v.wf(),
        v.item_index + 1 < v.categories[v.cat_index].items.len(),
    ensures
        v.moved_down().moved_up() == v,
{
}

/// The value after "next value" was applied `n` times.
pub open spec fn next_times(k: KindView, n: nat) -> KindView
    decreases n,
{
    if n == 0 {
        k
    } else {
        next_kind(next_times(k, (n - 1) as nat))
    }
}

/// Whether repeated "next value" cycles through a fixed set: a boolean, a colour,
/// a built-in theme, or a choice among distinct options that include it.
pub open spec fn cyclic(k: KindView) -> bool {
    match k {
        KindView::Bool(_) => true,
        KindView::Color(_) => true,
        KindView::Theme(t) => themes().contains(t),
        KindView::Choice(o, c) => o.contains(c) && o.no_duplicates(),
        _ => false,
    }
}

/// After how many steps repeated "next value" comes back: 2 for a boolean, 256
/// for a colour, 6 for a theme, the number of options for a choice.
pub open spec fn period(k: KindView) -> int {
    match k {
        KindView::Bool(_) => 2,
        KindView::Color(_) => 256,
        KindView::Theme(_) => 6,
        KindView::Choice(o, _) => o.len() as int,
        _ => 1,
    }
}

proof fn lemma_mod_step(x: int, m: int)
    requires
        0 < m,
        0 <= x,
    ensures
        ((x % m) + 1) % m == (x + 1) % m,
        0 <= x % m < m,
{
    vstd::arithmetic::div_mod::lemma_add_mod_noop(x, 1, m);
    vstd::arithmetic::div_mod::lemma_mod_bound(x, m);
    if m == 1 {
        vstd::arithmetic::div_mod::lemma_mod_bound(x + 1, m);
        vstd::arithmetic::div_mod::lemma_mod_bound(x % m + 1, m);
    } else {
        vstd::arithmetic::div_mod::lemma_small_mod(1, m as nat);
    }
}

proof fn lemma_next_times_closed(k: KindView, n: nat)
    requires
        cyclic(k),
    ensures
        match k {
            KindView::Bool(b) => next_times(k, n) == KindView::Bool(if n % 2 == 0 { b } else { !b }),
            KindView::Color(c) => next_times(k, n) == KindView::Color(((c + n) % 256) as u8),
            KindView::Theme(t) => next_times(k, n) == KindView::Theme(
                themes()[(themes().index_of(t) + n) % 6],
            ),
            KindView::Choice(o, c) => next_times(k, n) == KindView::Choice(
                o,
                o[(o.index_of(c) + n) % (o.len() as int)],
            ),
            _ => true,
        },
    decreases n,
{
    if n > 0 {
        lemma_next_times_closed(k, (n - 1) as nat);
        match k {
            KindView::Color(c) => {
                lemma_mod_step(c + n - 1, 256);
            },
            KindView::Theme(t) => {
                lemma_themes_distinct();
                let p = themes().index_of(t);
                let q = (p + n - 1) % 6;
                lemma_mod_step(p + n - 1, 6);
                lemma_position_of_member(themes(), q);
            },
            KindView::Choice(o, c) => {
                let p = o.index_of(c);
                let len = o.len() as int;
                let q = (p + n - 1) % len;
                lemma_mod_step(p + n - 1, len);
                lemma_position_of_member(o, q);
            },
            _ => {},
        }
    } else {
        match k {
            KindView::Theme(t) => {
                let p = themes().index_of(t);
                assert(p % 6 == p);
            },
            KindView::Choice(o, c) => {
                let p = o.index_of(c);
                vstd::arithmetic::div_mod::lemma_small_mod(p as nat, o.len());
            },
            _ => {},
        }
    }
}

/// Repeated "next value" on a value that cycles (see `cyclic`) gives the value
/// back exactly after a multiple of its period (see `period`).
pub proof fn law_cycle_period(k: KindView, n: nat)
    requires
        cyclic(k),
    ensures
        next_times(k, n) == k <==> (n as int) % period(k) == 0,
{
    lemma_next_times_closed(k, n);
    match k {
        KindView::Color(c) => {
            assert(((c + n) % 256) as u8 == c <==> n % 256 == 0) by (nonlinear_arith)
                requires 0 <= c < 256, 0 <= n;
        },
        KindView::Theme(t) => {
            lemma_themes_distinct();
            let p = themes().index_of(t);
            let q = (p + n) % 6;
            assert(0 <= q < 6);
            assert(q == p <==> n % 6 == 0) by (nonlinear_arith)
                requires 0 <= p < 6, 0 <= n, q == (p + n) % 6;
            if q != p {
                assert(themes()[q] != themes()[p]);
            }
        },
        KindView::Choice(o, c) => {
            let p = o.index_of(c);
            let len = o.len() as int;
            let q = (p + n) % len;
            vstd::arithmetic::div_mod::lemma_mod_bound(p + n, len);
            assert(q == p <==> (n as int) % len == 0) by (nonlinear_arith)
                requires 0 <= p < len, 0 <= n, q == (p + n) % len;
            if q != p {
                assert(o[q] != o[p]);
            }
        },
        _ => {},
    }
}

/// The editor after "next value" was applied `n` times to the selected setting.
pub open spec fn next_value_times(v: AppView, n: nat) -> AppView
    decreases n,
{
    if n == 0 {
        v
    } else {
        let u = next_value_times(v, (n - 1) as nat);
        u.after_change(next_kind(u.current().kind), crate::app::cycles(u.current().kind))
    }
}

proof fn lemma_next_value_times(v: AppView, n: nat)
    requires
        v.selected(),
    ensures
        next_value_times(v, n).cat_index == v.cat_index,
        next_value_times(v, n).item_index == v.item_index,
        next_value_times(v, n).categories.len() == v.categories.len(),
        next_value_times(v, n).categories[v.cat_index].items.len() == v.categories[v.cat_index].items.len(),
        next_value_times(v, n).current().kind == next_times(v.current().kind, n),
    decreases n,
{
    if n > 0 {
        lemma_next_value_times(v, (n - 1) as nat);
    }
}

/// Applying "next value" to the selected setting again and again, when its value
/// cycles (see `cyclic`), keeps the selection and gives the value back exactly
/// after a multiple of its period (see `period`): 2 for a boolean, 256 for a
/// colour, 6 for a theme, the number of options for a choice.
pub proof fn law_next_value_period(v: AppView, n: nat)
    requires
        v.selected(),
        cyclic(v.current().kind),
    ensures
        next_value_times(v, n).cat_index == v.cat_index,
        next_value_times(v, n).item_index == v.item_index,
        next_value_times(v, n).current().kind == v.current().kind <==> (n as int) % period(v.current().kind)
            == 0,
{
    lemma_next_value_times(v, n);
    law_cycle_period(v.current().kind, n);
}

} // verus!
