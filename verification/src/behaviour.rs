//! What the editor does, stated by value: the settings' defaults, the colours of
//! each built-in theme, which category the pane highlights, and when a change
//! marks the settings as modified.
use vstd::prelude::*;
use crate::app::{AppView, next_kind, prev_kind, edited_kind, answer_taken, cycles};
use crate::model::{KindView, ItemView, CategoryView, categories_from};
use crate::json::{FieldView, field_at};
use crate::laws::{defaults, law_decimal_parses_back};
use crate::render::{Style, category_lines};
use crate::text::decimal;
use crate::theme::{themes, theme_color};

verus! {

/// The settings of a document that sets none of them: each category with its
/// settings, keys and labels in order, each setting at its default (the theme
/// "default", the prompt, syntax and tab colours, completion off with 10
/// results, auto correct off, auto pair, tips, command and right prompt on, no
/// slow-command warning or autosave, "smart" history de-duplication, and "rtfm"
/// as file manager).
pub proof fn law_default_settings()
    ensures
        defaults() ==         seq![
            CategoryView {
                name: "Theme"@,
                items: seq![
                    ItemView { key: "theme"@, label: "Theme"@, kind: KindView::Theme("default"@) },
                ],
            },
            CategoryView {
                name: "Prompt Colors"@,
                items: seq![
                    ItemView { key: "c_user"@, label: "Username"@, kind: KindView::Color(2) },
                    ItemView { key: "c_host"@, label: "Hostname"@, kind: KindView::Color(2) },
                    ItemView { key: "c_cwd"@, label: "Directory"@, kind: KindView::Color(81) },
                    ItemView { key: "c_git"@, label: "Git branch"@, kind: KindView::Color(243) },
                    ItemView { key: "c_stamp"@, label: "Timestamp"@, kind: KindView::Color(240) },
                    ItemView { key: "c_prompt"@, label: "Prompt >"@, kind: KindView::Color(208) },
                    ItemView { key: "c_user_root"@, label: "Root user"@, kind: KindView::Color(196) },
                    ItemView { key: "c_host_root"@, label: "Root host"@, kind: KindView::Color(196) },
                ],
            },
            CategoryView {
                name: "Syntax Colors"@,
                items: seq![
                    ItemView { key: "c_cmd"@, label: "Commands"@, kind: KindView::Color(48) },
                    ItemView { key: "c_nick"@, label: "Nicks"@, kind: KindView::Color(87) },
                    ItemView { key: "c_gnick"@, label: "Global nicks"@, kind: KindView::Color(87) },
                    ItemView { key: "c_path"@, label: "Paths"@, kind: KindView::Color(7) },
                    ItemView { key: "c_switch"@, label: "Switches"@, kind: KindView::Color(220) },
                    ItemView { key: "c_bookmark"@, label: "Bookmarks"@, kind: KindView::Color(51) },
                    ItemView { key: "c_colon"@, label: "Colon cmds"@, kind: KindView::Color(33) },
                    ItemView { key: "c_suggestion"@, label: "Suggestions"@, kind: KindView::Color(240) },
                ],
            },
            CategoryView {
                name: "Tab Colors"@,
                items: seq![
                    ItemView { key: "c_tabselect"@, label: "Selected tab"@, kind: KindView::Color(214) },
                    ItemView { key: "c_taboption"@, label: "Tab options"@, kind: KindView::Color(244) },
                    ItemView { key: "c_dir"@, label: "Directories"@, kind: KindView::Color(12) },
                    ItemView { key: "c_exec"@, label: "Executables"@, kind: KindView::Color(9) },
                    ItemView { key: "c_file"@, label: "Files"@, kind: KindView::Color(7) },
                ],
            },
            CategoryView {
                name: "Completion"@,
                items: seq![
                    ItemView { key: "completion_fuzzy"@, label: "Fuzzy match"@, kind: KindView::Bool(false) },
                    ItemView { key: "completion_case_sensitive"@, label: "Case sensitive"@, kind: KindView::Bool(false) },
                    ItemView { key: "completion_limit"@, label: "Max results"@, kind: KindView::Number(10) },
                    ItemView { key: "completion_show_metadata"@, label: "Show metadata"@, kind: KindView::Bool(false) },
                ],
            },
            CategoryView {
                name: "Behavior"@,
                items: seq![
                    ItemView { key: "auto_correct"@, label: "Auto correct"@, kind: KindView::Bool(false) },
                    ItemView { key: "auto_pair"@, label: "Auto pair"@, kind: KindView::Bool(true) },
                    ItemView { key: "show_tips"@, label: "Show tips"@, kind: KindView::Bool(true) },
                    ItemView { key: "show_cmd"@, label: "Show command"@, kind: KindView::Bool(true) },
                    ItemView { key: "rprompt"@, label: "Right prompt"@, kind: KindView::Bool(true) },
                    ItemView { key: "slow_command_threshold"@, label: "Slow cmd warn (s)"@, kind: KindView::Number(0) },
                    ItemView { key: "session_autosave"@, label: "Autosave (s)"@, kind: KindView::Number(0) },
                    ItemView { key: "history_dedup"@, label: "History dedup"@, kind: KindView::Choice(seq!["off"@, "full"@, "smart"@], "smart"@) },
                ],
            },
            CategoryView {
                name: "Paths"@,
                items: seq![
                    ItemView { key: "file_manager"@, label: "File manager"@, kind: KindView::Text("rtfm"@) },
                ],
            },
        ],
{
    let t = defaults();
    assert(t[0].items =~= (        seq![
            CategoryView {
                name: "Theme"@,
                items: seq![
                    ItemView { key: "theme"@, label: "Theme"@, kind: KindView::Theme("default"@) },
                ],
            },
            CategoryView {
                name: "Prompt Colors"@,
                items: seq![
                    ItemView { key: "c_user"@, label: "Username"@, kind: KindView::Color(2) },
                    ItemView { key: "c_host"@, label: "Hostname"@, kind: KindView::Color(2) },
                    ItemView { key: "c_cwd"@, label: "Directory"@, kind: KindView::Color(81) },
                    ItemView { key: "c_git"@, label: "Git branch"@, kind: KindView::Color(243) },
                    ItemView { key: "c_stamp"@, label: "Timestamp"@, kind: KindView::Color(240) },
                    ItemView { key: "c_prompt"@, label: "Prompt >"@, kind: KindView::Color(208) },
                    ItemView { key: "c_user_root"@, label: "Root user"@, kind: KindView::Color(196) },
                    ItemView { key: "c_host_root"@, label: "Root host"@, kind: KindView::Color(196) },
                ],
            },
            CategoryView {
                name: "Syntax Colors"@,
                items: seq![
                    ItemView { key: "c_cmd"@, label: "Commands"@, kind: KindView::Color(48) },
                    ItemView { key: "c_nick"@, label: "Nicks"@, kind: KindView::Color(87) },
                    ItemView { key: "c_gnick"@, label: "Global nicks"@, kind: KindView::Color(87) },
                    ItemView { key: "c_path"@, label: "Paths"@, kind: KindView::Color(7) },
                    ItemView { key: "c_switch"@, label: "Switches"@, kind: KindView::Color(220) },
                    ItemView { key: "c_bookmark"@, label: "Bookmarks"@, kind: KindView::Color(51) },
                    ItemView { key: "c_colon"@, label: "Colon cmds"@, kind: KindView::Color(33) },
                    ItemView { key: "c_suggestion"@, label: "Suggestions"@, kind: KindView::Color(240) },
                ],
            },
            CategoryView {
                name: "Tab Colors"@,
                items: seq![
                    ItemView { key: "c_tabselect"@, label: "Selected tab"@, kind: KindView::Color(214) },
                    ItemView { key: "c_taboption"@, label: "Tab options"@, kind: KindView::Color(244) },
                    ItemView { key: "c_dir"@, label: "Directories"@, kind: KindView::Color(12) },
                    ItemView { key: "c_exec"@, label: "Executables"@, kind: KindView::Color(9) },
                    ItemView { key: "c_file"@, label: "Files"@, kind: KindView::Color(7) },
                ],
            },
            CategoryView {
                name: "Completion"@,
                items: seq![
                    ItemView { key: "completion_fuzzy"@, label: "Fuzzy match"@, kind: KindView::Bool(false) },
                    ItemView { key: "completion_case_sensitive"@, label: "Case sensitive"@, kind: KindView::Bool(false) },
                    ItemView { key: "completion_limit"@, label: "Max results"@, kind: KindView::Number(10) },
                    ItemView { key: "completion_show_metadata"@, label: "Show metadata"@, kind: KindView::Bool(false) },
                ],
            },
            CategoryView {
                name: "Behavior"@,
                items: seq![
                    ItemView { key: "auto_correct"@, label: "Auto correct"@, kind: KindView::Bool(false) },
                    ItemView { key: "auto_pair"@, label: "Auto pair"@, kind: KindView::Bool(true) },
                    ItemView { key: "show_tips"@, label: "Show tips"@, kind: KindView::Bool(true) },
                    ItemView { key: "show_cmd"@, label: "Show command"@, kind: KindView::Bool(true) },
                    ItemView { key: "rprompt"@, label: "Right prompt"@, kind: KindView::Bool(true) },
                    ItemView { key: "slow_command_threshold"@, label: "Slow cmd warn (s)"@, kind: KindView::Number(0) },
                    ItemView { key: "session_autosave"@, label: "Autosave (s)"@, kind: KindView::Number(0) },
                    ItemView { key: "history_dedup"@, label: "History dedup"@, kind: KindView::Choice(seq!["off"@, "full"@, "smart"@], "smart"@) },
                ],
            },
            CategoryView {
                name: "Paths"@,
                items: seq![
                    ItemView { key: "file_manager"@, label: "File manager"@, kind: KindView::Text("rtfm"@) },
                ],
            },
        ])[0].items);
    assert(t[1].items =~= (        seq![
            CategoryView {
                name: "Theme"@,
                items: seq![
                    ItemView { key: "theme"@, label: "Theme"@, kind: KindView::Theme("default"@) },
                ],
            },
            CategoryView {
                name: "Prompt Colors"@,
                items: seq![
                    ItemView { key: "c_user"@, label: "Username"@, kind: KindView::Color(2) },
                    ItemView { key: "c_host"@, label: "Hostname"@, kind: KindView::Color(2) },
                    ItemView { key: "c_cwd"@, label: "Directory"@, kind: KindView::Color(81) },
                    ItemView { key: "c_git"@, label: "Git branch"@, kind: KindView::Color(243) },
                    ItemView { key: "c_stamp"@, label: "Timestamp"@, kind: KindView::Color(240) },
                    ItemView { key: "c_prompt"@, label: "Prompt >"@, kind: KindView::Color(208) },
                    ItemView { key: "c_user_root"@, label: "Root user"@, kind: KindView::Color(196) },
                    ItemView { key: "c_host_root"@, label: "Root host"@, kind: KindView::Color(196) },
                ],
            },
            CategoryView {
                name: "Syntax Colors"@,
                items: seq![
                    ItemView { key: "c_cmd"@, label: "Commands"@, kind: KindView::Color(48) },
                    ItemView { key: "c_nick"@, label: "Nicks"@, kind: KindView::Color(87) },
                    ItemView { key: "c_gnick"@, label: "Global nicks"@, kind: KindView::Color(87) },
                    ItemView { key: "c_path"@, label: "Paths"@, kind: KindView::Color(7) },
                    ItemView { key: "c_switch"@, label: "Switches"@, kind: KindView::Color(220) },
                    ItemView { key: "c_bookmark"@, label: "Bookmarks"@, kind: KindView::Color(51) },
                    ItemView { key: "c_colon"@, label: "Colon cmds"@, kind: KindView::Color(33) },
                    ItemView { key: "c_suggestion"@, label: "Suggestions"@, kind: KindView::Color(240) },
                ],
            },
            CategoryView {
                name: "Tab Colors"@,
                items: seq![
                    ItemView { key: "c_tabselect"@, label: "Selected tab"@, kind: KindView::Color(214) },
                    ItemView { key: "c_taboption"@, label: "Tab options"@, kind: KindView::Color(244) },
                    ItemView { key: "c_dir"@, label: "Directories"@, kind: KindView::Color(12) },
                    ItemView { key: "c_exec"@, label: "Executables"@, kind: KindView::Color(9) },
                    ItemView { key: "c_file"@, label: "Files"@, kind: KindView::Color(7) },
                ],
            },
            CategoryView {
                name: "Completion"@,
                items: seq![
                    ItemView { key: "completion_fuzzy"@, label: "Fuzzy match"@, kind: KindView::Bool(false) },
                    ItemView { key: "completion_case_sensitive"@, label: "Case sensitive"@, kind: KindView::Bool(false) },
                    ItemView { key: "completion_limit"@, label: "Max results"@, kind: KindView::Number(10) },
                    ItemView { key: "completion_show_metadata"@, label: "Show metadata"@, kind: KindView::Bool(false) },
                ],
            },
            CategoryView {
                name: "Behavior"@,
                items: seq![
                    ItemView { key: "auto_correct"@, label: "Auto correct"@, kind: KindView::Bool(false) },
                    ItemView { key: "auto_pair"@, label: "Auto pair"@, kind: KindView::Bool(true) },
                    ItemView { key: "show_tips"@, label: "Show tips"@, kind: KindView::Bool(true) },
                    ItemView { key: "show_cmd"@, label: "Show command"@, kind: KindView::Bool(true) },
                    ItemView { key: "rprompt"@, label: "Right prompt"@, kind: KindView::Bool(true) },
                    ItemView { key: "slow_command_threshold"@, label: "Slow cmd warn (s)"@, kind: KindView::Number(0) },
                    ItemView { key: "session_autosave"@, label: "Autosave (s)"@, kind: KindView::Number(0) },
                    ItemView { key: "history_dedup"@, label: "History dedup"@, kind: KindView::Choice(seq!["off"@, "full"@, "smart"@], "smart"@) },
                ],
            },
            CategoryView {
                name: "Paths"@,
                items: seq![
                    ItemView { key: "file_manager"@, label: "File manager"@, kind: KindView::Text("rtfm"@) },
                ],
            },
        ])[1].items);
    assert(t[2].items =~= (        seq![
            CategoryView {
                name: "Theme"@,
                items: seq![
                    ItemView { key: "theme"@, label: "Theme"@, kind: KindView::Theme("default"@) },
                ],
            },
            CategoryView {
                name: "Prompt Colors"@,
                items: seq![
                    ItemView { key: "c_user"@, label: "Username"@, kind: KindView::Color(2) },
                    ItemView { key: "c_host"@, label: "Hostname"@, kind: KindView::Color(2) },
                    ItemView { key: "c_cwd"@, label: "Directory"@, kind: KindView::Color(81) },
                    ItemView { key: "c_git"@, label: "Git branch"@, kind: KindView::Color(243) },
                    ItemView { key: "c_stamp"@, label: "Timestamp"@, kind: KindView::Color(240) },
                    ItemView { key: "c_prompt"@, label: "Prompt >"@, kind: KindView::Color(208) },
                    ItemView { key: "c_user_root"@, label: "Root user"@, kind: KindView::Color(196) },
                    ItemView { key: "c_host_root"@, label: "Root host"@, kind: KindView::Color(196) },
                ],
            },
            CategoryView {
                name: "Syntax Colors"@,
                items: seq![
                    ItemView { key: "c_cmd"@, label: "Commands"@, kind: KindView::Color(48) },
                    ItemView { key: "c_nick"@, label: "Nicks"@, kind: KindView::Color(87) },
                    ItemView { key: "c_gnick"@, label: "Global nicks"@, kind: KindView::Color(87) },
                    ItemView { key: "c_path"@, label: "Paths"@, kind: KindView::Color(7) },
                    ItemView { key: "c_switch"@, label: "Switches"@, kind: KindView::Color(220) },
                    ItemView { key: "c_bookmark"@, label: "Bookmarks"@, kind: KindView::Color(51) },
                    ItemView { key: "c_colon"@, label: "Colon cmds"@, kind: KindView::Color(33) },
                    ItemView { key: "c_suggestion"@, label: "Suggestions"@, kind: KindView::Color(240) },
                ],
            },
            CategoryView {
                name: "Tab Colors"@,
                items: seq![
                    ItemView { key: "c_tabselect"@, label: "Selected tab"@, kind: KindView::Color(214) },
                    ItemView { key: "c_taboption"@, label: "Tab options"@, kind: KindView::Color(244) },
                    ItemView { key: "c_dir"@, label: "Directories"@, kind: KindView::Color(12) },
                    ItemView { key: "c_exec"@, label: "Executables"@, kind: KindView::Color(9) },
                    ItemView { key: "c_file"@, label: "Files"@, kind: KindView::Color(7) },
                ],
            },
            CategoryView {
                name: "Completion"@,
                items: seq![
                    ItemView { key: "completion_fuzzy"@, label: "Fuzzy match"@, kind: KindView::Bool(false) },
                    ItemView { key: "completion_case_sensitive"@, label: "Case sensitive"@, kind: KindView::Bool(false) },
                    ItemView { key: "completion_limit"@, label: "Max results"@, kind: KindView::Number(10) },
                    ItemView { key: "completion_show_metadata"@, label: "Show metadata"@, kind: KindView::Bool(false) },
                ],
            },
            CategoryView {
                name: "Behavior"@,
                items: seq![
                    ItemView { key: "auto_correct"@, label: "Auto correct"@, kind: KindView::Bool(false) },
                    ItemView { key: "auto_pair"@, label: "Auto pair"@, kind: KindView::Bool(true) },
                    ItemView { key: "show_tips"@, label: "Show tips"@, kind: KindView::Bool(true) },
                    ItemView { key: "show_cmd"@, label: "Show command"@, kind: KindView::Bool(true) },
                    ItemView { key: "rprompt"@, label: "Right prompt"@, kind: KindView::Bool(true) },
                    ItemView { key: "slow_command_threshold"@, label: "Slow cmd warn (s)"@, kind: KindView::Number(0) },
                    ItemView { key: "session_autosave"@, label: "Autosave (s)"@, kind: KindView::Number(0) },
                    ItemView { key: "history_dedup"@, label: "History dedup"@, kind: KindView::Choice(seq!["off"@, "full"@, "smart"@], "smart"@) },
                ],
            },
            CategoryView {
                name: "Paths"@,
                items: seq![
                    ItemView { key: "file_manager"@, label: "File manager"@, kind: KindView::Text("rtfm"@) },
                ],
            },
        ])[2].items);
    assert(t[3].items =~= (        seq![
            CategoryView {
                name: "Theme"@,
                items: seq![
                    ItemView { key: "theme"@, label: "Theme"@, kind: KindView::Theme("default"@) },
                ],
            },
            CategoryView {
                name: "Prompt Colors"@,
                items: seq![
                    ItemView { key: "c_user"@, label: "Username"@, kind: KindView::Color(2) },
                    ItemView { key: "c_host"@, label: "Hostname"@, kind: KindView::Color(2) },
                    ItemView { key: "c_cwd"@, label: "Directory"@, kind: KindView::Color(81) },
                    ItemView { key: "c_git"@, label: "Git branch"@, kind: KindView::Color(243) },
                    ItemView { key: "c_stamp"@, label: "Timestamp"@, kind: KindView::Color(240) },
                    ItemView { key: "c_prompt"@, label: "Prompt >"@, kind: KindView::Color(208) },
                    ItemView { key: "c_user_root"@, label: "Root user"@, kind: KindView::Color(196) },
                    ItemView { key: "c_host_root"@, label: "Root host"@, kind: KindView::Color(196) },
                ],
            },
            CategoryView {
                name: "Syntax Colors"@,
                items: seq![
                    ItemView { key: "c_cmd"@, label: "Commands"@, kind: KindView::Color(48) },
                    ItemView { key: "c_nick"@, label: "Nicks"@, kind: KindView::Color(87) },
                    ItemView { key: "c_gnick"@, label: "Global nicks"@, kind: KindView::Color(87) },
                    ItemView { key: "c_path"@, label: "Paths"@, kind: KindView::Color(7) },
                    ItemView { key: "c_switch"@, label: "Switches"@, kind: KindView::Color(220) },
                    ItemView { key: "c_bookmark"@, label: "Bookmarks"@, kind: KindView::Color(51) },
                    ItemView { key: "c_colon"@, label: "Colon cmds"@, kind: KindView::Color(33) },
                    ItemView { key: "c_suggestion"@, label: "Suggestions"@, kind: KindView::Color(240) },
                ],
            },
            CategoryView {
                name: "Tab Colors"@,
                items: seq![
                    ItemView { key: "c_tabselect"@, label: "Selected tab"@, kind: KindView::Color(214) },
                    ItemView { key: "c_taboption"@, label: "Tab options"@, kind: KindView::Color(244) },
                    ItemView { key: "c_dir"@, label: "Directories"@, kind: KindView::Color(12) },
                    ItemView { key: "c_exec"@, label: "Executables"@, kind: KindView::Color(9) },
                    ItemView { key: "c_file"@, label: "Files"@, kind: KindView::Color(7) },
                ],
            },
            CategoryView {
                name: "Completion"@,
                items: seq![
                    ItemView { key: "completion_fuzzy"@, label: "Fuzzy match"@, kind: KindView::Bool(false) },
                    ItemView { key: "completion_case_sensitive"@, label: "Case sensitive"@, kind: KindView::Bool(false) },
                    ItemView { key: "completion_limit"@, label: "Max results"@, kind: KindView::Number(10) },
                    ItemView { key: "completion_show_metadata"@, label: "Show metadata"@, kind: KindView::Bool(false) },
                ],
            },
            CategoryView {
                name: "Behavior"@,
                items: seq![
                    ItemView { key: "auto_correct"@, label: "Auto correct"@, kind: KindView::Bool(false) },
                    ItemView { key: "auto_pair"@, label: "Auto pair"@, kind: KindView::Bool(true) },
                    ItemView { key: "show_tips"@, label: "Show tips"@, kind: KindView::Bool(true) },
                    ItemView { key: "show_cmd"@, label: "Show command"@, kind: KindView::Bool(true) },
                    ItemView { key: "rprompt"@, label: "Right prompt"@, kind: KindView::Bool(true) },
                    ItemView { key: "slow_command_threshold"@, label: "Slow cmd warn (s)"@, kind: KindView::Number(0) },
                    ItemView { key: "session_autosave"@, label: "Autosave (s)"@, kind: KindView::Number(0) },
                    ItemView { key: "history_dedup"@, label: "History dedup"@, kind: KindView::Choice(seq!["off"@, "full"@, "smart"@], "smart"@) },
                ],
            },
            CategoryView {
                name: "Paths"@,
                items: seq![
                    ItemView { key: "file_manager"@, label: "File manager"@, kind: KindView::Text("rtfm"@) },
                ],
            },
        ])[3].items);
    assert(t[4].items =~= (        seq![
            CategoryView {
                name: "Theme"@,
                items: seq![
                    ItemView { key: "theme"@, label: "Theme"@, kind: KindView::Theme("default"@) },
                ],
            },
            CategoryView {
                name: "Prompt Colors"@,
                items: seq![
                    ItemView { key: "c_user"@, label: "Username"@, kind: KindView::Color(2) },
                    ItemView { key: "c_host"@, label: "Hostname"@, kind: KindView::Color(2) },
                    ItemView { key: "c_cwd"@, label: "Directory"@, kind: KindView::Color(81) },
                    ItemView { key: "c_git"@, label: "Git branch"@, kind: KindView::Color(243) },
                    ItemView { key: "c_stamp"@, label: "Timestamp"@, kind: KindView::Color(240) },
                    ItemView { key: "c_prompt"@, label: "Prompt >"@, kind: KindView::Color(208) },
                    ItemView { key: "c_user_root"@, label: "Root user"@, kind: KindView::Color(196) },
                    ItemView { key: "c_host_root"@, label: "Root host"@, kind: KindView::Color(196) },
                ],
            },
            CategoryView {
                name: "Syntax Colors"@,
                items: seq![
                    ItemView { key: "c_cmd"@, label: "Commands"@, kind: KindView::Color(48) },
                    ItemView { key: "c_nick"@, label: "Nicks"@, kind: KindView::Color(87) },
                    ItemView { key: "c_gnick"@, label: "Global nicks"@, kind: KindView::Color(87) },
                    ItemView { key: "c_path"@, label: "Paths"@, kind: KindView::Color(7) },
                    ItemView { key: "c_switch"@, label: "Switches"@, kind: KindView::Color(220) },
                    ItemView { key: "c_bookmark"@, label: "Bookmarks"@, kind: KindView::Color(51) },
                    ItemView { key: "c_colon"@, label: "Colon cmds"@, kind: KindView::Color(33) },
                    ItemView { key: "c_suggestion"@, label: "Suggestions"@, kind: KindView::Color(240) },
                ],
            },
            CategoryView {
                name: "Tab Colors"@,
                items: seq![
                    ItemView { key: "c_tabselect"@, label: "Selected tab"@, kind: KindView::Color(214) },
                    ItemView { key: "c_taboption"@, label: "Tab options"@, kind: KindView::Color(244) },
                    ItemView { key: "c_dir"@, label: "Directories"@, kind: KindView::Color(12) },
                    ItemView { key: "c_exec"@, label: "Executables"@, kind: KindView::Color(9) },
                    ItemView { key: "c_file"@, label: "Files"@, kind: KindView::Color(7) },
                ],
            },
            CategoryView {
                name: "Completion"@,
                items: seq![
                    ItemView { key: "completion_fuzzy"@, label: "Fuzzy match"@, kind: KindView::Bool(false) },
                    ItemView { key: "completion_case_sensitive"@, label: "Case sensitive"@, kind: KindView::Bool(false) },
                    ItemView { key: "completion_limit"@, label: "Max results"@, kind: KindView::Number(10) },
                    ItemView { key: "completion_show_metadata"@, label: "Show metadata"@, kind: KindView::Bool(false) },
                ],
            },
            CategoryView {
                name: "Behavior"@,
                items: seq![
                    ItemView { key: "auto_correct"@, label: "Auto correct"@, kind: KindView::Bool(false) },
                    ItemView { key: "auto_pair"@, label: "Auto pair"@, kind: KindView::Bool(true) },
                    ItemView { key: "show_tips"@, label: "Show tips"@, kind: KindView::Bool(true) },
                    ItemView { key: "show_cmd"@, label: "Show command"@, kind: KindView::Bool(true) },
                    ItemView { key: "rprompt"@, label: "Right prompt"@, kind: KindView::Bool(true) },
                    ItemView { key: "slow_command_threshold"@, label: "Slow cmd warn (s)"@, kind: KindView::Number(0) },
                    ItemView { key: "session_autosave"@, label: "Autosave (s)"@, kind: KindView::Number(0) },
                    ItemView { key: "history_dedup"@, label: "History dedup"@, kind: KindView::Choice(seq!["off"@, "full"@, "smart"@], "smart"@) },
                ],
            },
            CategoryView {
                name: "Paths"@,
                items: seq![
                    ItemView { key: "file_manager"@, label: "File manager"@, kind: KindView::Text("rtfm"@) },
                ],
            },
        ])[4].items);
    assert(t[5].items =~= (        seq![
            CategoryView {
                name: "Theme"@,
                items: seq![
                    ItemView { key: "theme"@, label: "Theme"@, kind: KindView::Theme("default"@) },
                ],
            },
            CategoryView {
                name: "Prompt Colors"@,
                items: seq![
                    ItemView { key: "c_user"@, label: "Username"@, kind: KindView::Color(2) },
                    ItemView { key: "c_host"@, label: "Hostname"@, kind: KindView::Color(2) },
                    ItemView { key: "c_cwd"@, label: "Directory"@, kind: KindView::Color(81) },
                    ItemView { key: "c_git"@, label: "Git branch"@, kind: KindView::Color(243) },
                    ItemView { key: "c_stamp"@, label: "Timestamp"@, kind: KindView::Color(240) },
                    ItemView { key: "c_prompt"@, label: "Prompt >"@, kind: KindView::Color(208) },
                    ItemView { key: "c_user_root"@, label: "Root user"@, kind: KindView::Color(196) },
                    ItemView { key: "c_host_root"@, label: "Root host"@, kind: KindView::Color(196) },
                ],
            },
            CategoryView {
                name: "Syntax Colors"@,
                items: seq![
                    ItemView { key: "c_cmd"@, label: "Commands"@, kind: KindView::Color(48) },
                    ItemView { key: "c_nick"@, label: "Nicks"@, kind: KindView::Color(87) },
                    ItemView { key: "c_gnick"@, label: "Global nicks"@, kind: KindView::Color(87) },
                    ItemView { key: "c_path"@, label: "Paths"@, kind: KindView::Color(7) },
                    ItemView { key: "c_switch"@, label: "Switches"@, kind: KindView::Color(220) },
                    ItemView { key: "c_bookmark"@, label: "Bookmarks"@, kind: KindView::Color(51) },
                    ItemView { key: "c_colon"@, label: "Colon cmds"@, kind: KindView::Color(33) },
                    ItemView { key: "c_suggestion"@, label: "Suggestions"@, kind: KindView::Color(240) },
                ],
            },
            CategoryView {
                name: "Tab Colors"@,
                items: seq![
                    ItemView { key: "c_tabselect"@, label: "Selected tab"@, kind: KindView::Color(214) },
                    ItemView { key: "c_taboption"@, label: "Tab options"@, kind: KindView::Color(244) },
                    ItemView { key: "c_dir"@, label: "Directories"@, kind: KindView::Color(12) },
                    ItemView { key: "c_exec"@, label: "Executables"@, kind: KindView::Color(9) },
                    ItemView { key: "c_file"@, label: "Files"@, kind: KindView::Color(7) },
                ],
            },
            CategoryView {
                name: "Completion"@,
                items: seq![
                    ItemView { key: "completion_fuzzy"@, label: "Fuzzy match"@, kind: KindView::Bool(false) },
                    ItemView { key: "completion_case_sensitive"@, label: "Case sensitive"@, kind: KindView::Bool(false) },
                    ItemView { key: "completion_limit"@, label: "Max results"@, kind: KindView::Number(10) },
                    ItemView { key: "completion_show_metadata"@, label: "Show metadata"@, kind: KindView::Bool(false) },
                ],
            },
            CategoryView {
                name: "Behavior"@,
                items: seq![
                    ItemView { key: "auto_correct"@, label: "Auto correct"@, kind: KindView::Bool(false) },
                    ItemView { key: "auto_pair"@, label: "Auto pair"@, kind: KindView::Bool(true) },
                    ItemView { key: "show_tips"@, label: "Show tips"@, kind: KindView::Bool(true) },
                    ItemView { key: "show_cmd"@, label: "Show command"@, kind: KindView::Bool(true) },
                    ItemView { key: "rprompt"@, label: "Right prompt"@, kind: KindView::Bool(true) },
                    ItemView { key: "slow_command_threshold"@, label: "Slow cmd warn (s)"@, kind: KindView::Number(0) },
                    ItemView { key: "session_autosave"@, label: "Autosave (s)"@, kind: KindView::Number(0) },
                    ItemView { key: "history_dedup"@, label: "History dedup"@, kind: KindView::Choice(seq!["off"@, "full"@, "smart"@], "smart"@) },
                ],
            },
            CategoryView {
                name: "Paths"@,
                items: seq![
                    ItemView { key: "file_manager"@, label: "File manager"@, kind: KindView::Text("rtfm"@) },
                ],
            },
        ])[5].items);
    assert(t[6].items =~= (        seq![
            CategoryView {
                name: "Theme"@,
                items: seq![
                    ItemView { key: "theme"@, label: "Theme"@, kind: KindView::Theme("default"@) },
                ],
            },
            CategoryView {
                name: "Prompt Colors"@,
                items: seq![
                    ItemView { key: "c_user"@, label: "Username"@, kind: KindView::Color(2) },
                    ItemView { key: "c_host"@, label: "Hostname"@, kind: KindView::Color(2) },
                    ItemView { key: "c_cwd"@, label: "Directory"@, kind: KindView::Color(81) },
                    ItemView { key: "c_git"@, label: "Git branch"@, kind: KindView::Color(243) },
                    ItemView { key: "c_stamp"@, label: "Timestamp"@, kind: KindView::Color(240) },
                    ItemView { key: "c_prompt"@, label: "Prompt >"@, kind: KindView::Color(208) },
                    ItemView { key: "c_user_root"@, label: "Root user"@, kind: KindView::Color(196) },
                    ItemView { key: "c_host_root"@, label: "Root host"@, kind: KindView::Color(196) },
                ],
            },
            CategoryView {
                name: "Syntax Colors"@,
                items: seq![
                    ItemView { key: "c_cmd"@, label: "Commands"@, kind: KindView::Color(48) },
                    ItemView { key: "c_nick"@, label: "Nicks"@, kind: KindView::Color(87) },
                    ItemView { key: "c_gnick"@, label: "Global nicks"@, kind: KindView::Color(87) },
                    ItemView { key: "c_path"@, label: "Paths"@, kind: KindView::Color(7) },
                    ItemView { key: "c_switch"@, label: "Switches"@, kind: KindView::Color(220) },
                    ItemView { key: "c_bookmark"@, label: "Bookmarks"@, kind: KindView::Color(51) },
                    ItemView { key: "c_colon"@, label: "Colon cmds"@, kind: KindView::Color(33) },
                    ItemView { key: "c_suggestion"@, label: "Suggestions"@, kind: KindView::Color(240) },
                ],
            },
            CategoryView {
                name: "Tab Colors"@,
                items: seq![
                    ItemView { key: "c_tabselect"@, label: "Selected tab"@, kind: KindView::Color(214) },
                    ItemView { key: "c_taboption"@, label: "Tab options"@, kind: KindView::Color(244) },
                    ItemView { key: "c_dir"@, label: "Directories"@, kind: KindView::Color(12) },
                    ItemView { key: "c_exec"@, label: "Executables"@, kind: KindView::Color(9) },
                    ItemView { key: "c_file"@, label: "Files"@, kind: KindView::Color(7) },
                ],
            },
            CategoryView {
                name: "Completion"@,
                items: seq![
                    ItemView { key: "completion_fuzzy"@, label: "Fuzzy match"@, kind: KindView::Bool(false) },
                    ItemView { key: "completion_case_sensitive"@, label: "Case sensitive"@, kind: KindView::Bool(false) },
                    ItemView { key: "completion_limit"@, label: "Max results"@, kind: KindView::Number(10) },
                    ItemView { key: "completion_show_metadata"@, label: "Show metadata"@, kind: KindView::Bool(false) },
                ],
            },
            CategoryView {
                name: "Behavior"@,
                items: seq![
                    ItemView { key: "auto_correct"@, label: "Auto correct"@, kind: KindView::Bool(false) },
                    ItemView { key: "auto_pair"@, label: "Auto pair"@, kind: KindView::Bool(true) },
                    ItemView { key: "show_tips"@, label: "Show tips"@, kind: KindView::Bool(true) },
                    ItemView { key: "show_cmd"@, label: "Show command"@, kind: KindView::Bool(true) },
                    ItemView { key: "rprompt"@, label: "Right prompt"@, kind: KindView::Bool(true) },
                    ItemView { key: "slow_command_threshold"@, label: "Slow cmd warn (s)"@, kind: KindView::Number(0) },
                    ItemView { key: "session_autosave"@, label: "Autosave (s)"@, kind: KindView::Number(0) },
                    ItemView { key: "history_dedup"@, label: "History dedup"@, kind: KindView::Choice(seq!["off"@, "full"@, "smart"@], "smart"@) },
                ],
            },
            CategoryView {
                name: "Paths"@,
                items: seq![
                    ItemView { key: "file_manager"@, label: "File manager"@, kind: KindView::Text("rtfm"@) },
                ],
            },
        ])[6].items);
    assert(t =~=         seq![
            CategoryView {
                name: "Theme"@,
                items: seq![
                    ItemView { key: "theme"@, label: "Theme"@, kind: KindView::Theme("default"@) },
                ],
            },
            CategoryView {
                name: "Prompt Colors"@,
                items: seq![
                    ItemView { key: "c_user"@, label: "Username"@, kind: KindView::Color(2) },
                    ItemView { key: "c_host"@, label: "Hostname"@, kind: KindView::Color(2) },
                    ItemView { key: "c_cwd"@, label: "Directory"@, kind: KindView::Color(81) },
                    ItemView { key: "c_git"@, label: "Git branch"@, kind: KindView::Color(243) },
                    ItemView { key: "c_stamp"@, label: "Timestamp"@, kind: KindView::Color(240) },
                    ItemView { key: "c_prompt"@, label: "Prompt >"@, kind: KindView::Color(208) },
                    ItemView { key: "c_user_root"@, label: "Root user"@, kind: KindView::Color(196) },
                    ItemView { key: "c_host_root"@, label: "Root host"@, kind: KindView::Color(196) },
                ],
            },
            CategoryView {
                name: "Syntax Colors"@,
                items: seq![
                    ItemView { key: "c_cmd"@, label: "Commands"@, kind: KindView::Color(48) },
                    ItemView { key: "c_nick"@, label: "Nicks"@, kind: KindView::Color(87) },
                    ItemView { key: "c_gnick"@, label: "Global nicks"@, kind: KindView::Color(87) },
                    ItemView { key: "c_path"@, label: "Paths"@, kind: KindView::Color(7) },
                    ItemView { key: "c_switch"@, label: "Switches"@, kind: KindView::Color(220) },
                    ItemView { key: "c_bookmark"@, label: "Bookmarks"@, kind: KindView::Color(51) },
                    ItemView { key: "c_colon"@, label: "Colon cmds"@, kind: KindView::Color(33) },
                    ItemView { key: "c_suggestion"@, label: "Suggestions"@, kind: KindView::Color(240) },
                ],
            },
            CategoryView {
                name: "Tab Colors"@,
                items: seq![
                    ItemView { key: "c_tabselect"@, label: "Selected tab"@, kind: KindView::Color(214) },
                    ItemView { key: "c_taboption"@, label: "Tab options"@, kind: KindView::Color(244) },
                    ItemView { key: "c_dir"@, label: "Directories"@, kind: KindView::Color(12) },
                    ItemView { key: "c_exec"@, label: "Executables"@, kind: KindView::Color(9) },
                    ItemView { key: "c_file"@, label: "Files"@, kind: KindView::Color(7) },
                ],
            },
            CategoryView {
                name: "Completion"@,
                items: seq![
                    ItemView { key: "completion_fuzzy"@, label: "Fuzzy match"@, kind: KindView::Bool(false) },
                    ItemView { key: "completion_case_sensitive"@, label: "Case sensitive"@, kind: KindView::Bool(false) },
                    ItemView { key: "completion_limit"@, label: "Max results"@, kind: KindView::Number(10) },
                    ItemView { key: "completion_show_metadata"@, label: "Show metadata"@, kind: KindView::Bool(false) },
                ],
            },
            CategoryView {
                name: "Behavior"@,
                items: seq![
                    ItemView { key: "auto_correct"@, label: "Auto correct"@, kind: KindView::Bool(false) },
                    ItemView { key: "auto_pair"@, label: "Auto pair"@, kind: KindView::Bool(true) },
                    ItemView { key: "show_tips"@, label: "Show tips"@, kind: KindView::Bool(true) },
                    ItemView { key: "show_cmd"@, label: "Show command"@, kind: KindView::Bool(true) },
                    ItemView { key: "rprompt"@, label: "Right prompt"@, kind: KindView::Bool(true) },
                    ItemView { key: "slow_command_threshold"@, label: "Slow cmd warn (s)"@, kind: KindView::Number(0) },
                    ItemView { key: "session_autosave"@, label: "Autosave (s)"@, kind: KindView::Number(0) },
                    ItemView { key: "history_dedup"@, label: "History dedup"@, kind: KindView::Choice(seq!["off"@, "full"@, "smart"@], "smart"@) },
                ],
            },
            CategoryView {
                name: "Paths"@,
                items: seq![
                    ItemView { key: "file_manager"@, label: "File manager"@, kind: KindView::Text("rtfm"@) },
                ],
            },
        ]);
}

/// A setting whose key holds no value of the type it reads (no value at all, or
/// null, an array, an object, a negative or fractional number) takes its default.
pub proof fn law_missing_value_gives_default(g: Map<Seq<char>, FieldView>, ci: int, ii: int)
    requires
        0 <= ci < defaults().len(),
        0 <= ii < defaults()[ci].items.len(),
        field_at(g, defaults()[ci].items[ii].key) is Other,
    ensures
        categories_from(g)[ci].items[ii] == defaults()[ci].items[ii],
{
    if ci == 0 {
    } else if ci == 1 {
    } else if ci == 2 {
    } else if ci == 3 {
    } else if ci == 4 {
    } else if ci == 5 {
    } else {
    }
}

proof fn lemma_names_distinct()
    ensures
        "c_user"@ != "c_host"@,
        "c_user"@ != "c_cwd"@,
        "c_user"@ != "c_git"@,
        "c_user"@ != "c_prompt"@,
        "c_user"@ != "c_cmd"@,
        "c_user"@ != "c_nick"@,
        "c_host"@ != "c_cwd"@,
        "c_host"@ != "c_git"@,
        "c_host"@ != "c_prompt"@,
        "c_host"@ != "c_cmd"@,
        "c_host"@ != "c_nick"@,
        "c_cwd"@ != "c_git"@,
        "c_cwd"@ != "c_prompt"@,
        "c_cwd"@ != "c_cmd"@,
        "c_cwd"@ != "c_nick"@,
        "c_git"@ != "c_prompt"@,
        "c_git"@ != "c_cmd"@,
        "c_git"@ != "c_nick"@,
        "c_prompt"@ != "c_cmd"@,
        "c_prompt"@ != "c_nick"@,
        "c_cmd"@ != "c_nick"@,
        "default"@ != "solarized"@,
        "default"@ != "dracula"@,
        "default"@ != "gruvbox"@,
        "default"@ != "nord"@,
        "default"@ != "monokai"@,
        "solarized"@ != "dracula"@,
        "solarized"@ != "gruvbox"@,
        "solarized"@ != "nord"@,
        "solarized"@ != "monokai"@,
        "dracula"@ != "gruvbox"@,
        "dracula"@ != "nord"@,
        "dracula"@ != "monokai"@,
        "gruvbox"@ != "nord"@,
        "gruvbox"@ != "monokai"@,
        "nord"@ != "monokai"@,
{
    broadcast use vstd::string::group_string_axioms;
    reveal_strlit("c_user");
    assert("c_user"@.len() == 6);
    assert("c_user"@[0] == 'c');
    assert("c_user"@[1] == '_');
    assert("c_user"@[2] == 'u');
    assert("c_user"@[3] == 's');
    reveal_strlit("c_host");
    assert("c_host"@.len() == 6);
    assert("c_host"@[0] == 'c');
    assert("c_host"@[1] == '_');
    assert("c_host"@[2] == 'h');
    assert("c_host"@[3] == 'o');
    reveal_strlit("c_cwd");
    assert("c_cwd"@.len() == 5);
    assert("c_cwd"@[0] == 'c');
    assert("c_cwd"@[1] == '_');
    assert("c_cwd"@[2] == 'c');
    assert("c_cwd"@[3] == 'w');
    reveal_strlit("c_git");
    assert("c_git"@.len() == 5);
    assert("c_git"@[0] == 'c');
    assert("c_git"@[1] == '_');
    assert("c_git"@[2] == 'g');
    assert("c_git"@[3] == 'i');
    reveal_strlit("c_prompt");
    assert("c_prompt"@.len() == 8);
    assert("c_prompt"@[0] == 'c');
    assert("c_prompt"@[1] == '_');
    assert("c_prompt"@[2] == 'p');
    assert("c_prompt"@[3] == 'r');
    reveal_strlit("c_cmd");
    assert("c_cmd"@.len() == 5);
    assert("c_cmd"@[0] == 'c');
    assert("c_cmd"@[1] == '_');
    assert("c_cmd"@[2] == 'c');
    assert("c_cmd"@[3] == 'm');
    reveal_strlit("c_nick");
    assert("c_nick"@.len() == 6);
    assert("c_nick"@[0] == 'c');
    assert("c_nick"@[1] == '_');
    assert("c_nick"@[2] == 'n');
    assert("c_nick"@[3] == 'i');
    reveal_strlit("default");
    assert("default"@.len() == 7);
    assert("default"@[0] == 'd');
    assert("default"@[1] == 'e');
    assert("default"@[2] == 'f');
    assert("default"@[3] == 'a');
    reveal_strlit("solarized");
    assert("solarized"@.len() == 9);
    assert("solarized"@[0] == 's');
    assert("solarized"@[1] == 'o');
    assert("solarized"@[2] == 'l');
    assert("solarized"@[3] == 'a');
    reveal_strlit("dracula");
    assert("dracula"@.len() == 7);
    assert("dracula"@[0] == 'd');
    assert("dracula"@[1] == 'r');
    assert("dracula"@[2] == 'a');
    assert("dracula"@[3] == 'c');
    reveal_strlit("gruvbox");
    assert("gruvbox"@.len() == 7);
    assert("gruvbox"@[0] == 'g');
    assert("gruvbox"@[1] == 'r');
    assert("gruvbox"@[2] == 'u');
    assert("gruvbox"@[3] == 'v');
    reveal_strlit("nord");
    assert("nord"@.len() == 4);
    assert("nord"@[0] == 'n');
    assert("nord"@[1] == 'o');
    assert("nord"@[2] == 'r');
    assert("nord"@[3] == 'd');
    reveal_strlit("monokai");
    assert("monokai"@.len() == 7);
    assert("monokai"@[0] == 'm');
    assert("monokai"@[1] == 'o');
    assert("monokai"@[2] == 'n');
    assert("monokai"@[3] == 'o');
}

/// The colours each built-in theme gives to the parts of the prompt: user, host,
/// directory, git branch, prompt, command and nick.
pub proof fn law_theme_colors()
    ensures
        theme_color("solarized"@, "c_user"@) == 136,
        theme_color("solarized"@, "c_host"@) == 166,
        theme_color("solarized"@, "c_cwd"@) == 37,
        theme_color("solarized"@, "c_git"@) == 125,
        theme_color("solarized"@, "c_prompt"@) == 136,
        theme_color("solarized"@, "c_cmd"@) == 64,
        theme_color("solarized"@, "c_nick"@) == 33,
        theme_color("dracula"@, "c_user"@) == 117,
        theme_color("dracula"@, "c_host"@) == 212,
        theme_color("dracula"@, "c_cwd"@) == 84,
        theme_color("dracula"@, "c_git"@) == 141,
        theme_color("dracula"@, "c_prompt"@) == 141,
        theme_color("dracula"@, "c_cmd"@) == 84,
        theme_color("dracula"@, "c_nick"@) == 117,
        theme_color("gruvbox"@, "c_user"@) == 214,
        theme_color("gruvbox"@, "c_host"@) == 142,
        theme_color("gruvbox"@, "c_cwd"@) == 109,
        theme_color("gruvbox"@, "c_git"@) == 175,
        theme_color("gruvbox"@, "c_prompt"@) == 214,
        theme_color("gruvbox"@, "c_cmd"@) == 142,
        theme_color("gruvbox"@, "c_nick"@) == 108,
        theme_color("nord"@, "c_user"@) == 110,
        theme_color("nord"@, "c_host"@) == 150,
        theme_color("nord"@, "c_cwd"@) == 110,
        theme_color("nord"@, "c_git"@) == 139,
        theme_color("nord"@, "c_prompt"@) == 110,
        theme_color("nord"@, "c_cmd"@) == 150,
        theme_color("nord"@, "c_nick"@) == 146,
        theme_color("monokai"@, "c_user"@) == 148,
        theme_color("monokai"@, "c_host"@) == 81,
        theme_color("monokai"@, "c_cwd"@) == 186,
        theme_color("monokai"@, "c_git"@) == 141,
        theme_color("monokai"@, "c_prompt"@) == 197,
        theme_color("monokai"@, "c_cmd"@) == 148,
        theme_color("monokai"@, "c_nick"@) == 81,
        theme_color("default"@, "c_user"@) == 2,
        theme_color("default"@, "c_host"@) == 2,
        theme_color("default"@, "c_cwd"@) == 81,
        theme_color("default"@, "c_git"@) == 243,
        theme_color("default"@, "c_prompt"@) == 208,
        theme_color("default"@, "c_cmd"@) == 48,
        theme_color("default"@, "c_nick"@) == 87,
{
    lemma_names_distinct();
}

/// Any other part of the prompt gets the theme's remaining colour, and a theme
/// that is not built in colours everything as the default theme does.
pub proof fn law_theme_other_colors(theme: Seq<char>, key: Seq<char>)
    requires
        key != "c_user"@,
        key != "c_host"@,
        key != "c_cwd"@,
        key != "c_git"@,
        key != "c_prompt"@,
        key != "c_cmd"@,
        key != "c_nick"@,
    ensures
        theme_color("solarized"@, key) == 245,
        theme_color("dracula"@, key) == 248,
        theme_color("gruvbox"@, key) == 245,
        theme_color("nord"@, key) == 246,
        theme_color("monokai"@, key) == 246,
        theme_color("default"@, key) == 240,
        !themes().contains(theme) ==> theme_color(theme, key) == 240,
        !themes().contains(theme) ==> theme_color(theme, "c_cwd"@) == 81,
{
    lemma_names_distinct();
    if !themes().contains(theme) {
        assert(themes()[1] == "solarized"@);
        assert(themes()[2] == "dracula"@);
        assert(themes()[3] == "gruvbox"@);
        assert(themes()[4] == "nord"@);
        assert(themes()[5] == "monokai"@);
    }
}

/// The category pane has one line per category: its name between spaces, in
/// reverse video for the selected category and plain for every other one.
pub proof fn law_category_pane(cats: Seq<CategoryView>, sel: int, i: int)
    requires
        0 <= i < cats.len(),
    ensures
        category_lines(cats, sel).len() == cats.len(),
        category_lines(cats, sel)[i].len() == 1,
        category_lines(cats, sel)[i][0].text == " "@ + cats[i].name + " "@,
        i == sel ==> category_lines(cats, sel)[i][0].style == Style::Reverse,
        i != sel ==> category_lines(cats, sel)[i][0].style == Style::Plain,
{
}

/// Cycling the selected setting either way marks the settings as modified when it
/// is anything but a text (a colour, boolean, number, theme or choice), and
/// leaves the mark as it was for a text.
pub proof fn law_cycling_marks_modified(v: AppView)
    requires
        v.selected(),
    ensures
        !(v.current().kind is Text) ==> v.after_change(next_kind(v.current().kind), cycles(v.current().kind)).dirty,
        !(v.current().kind is Text) ==> v.after_change(prev_kind(v.current().kind), cycles(v.current().kind)).dirty,
        v.current().kind is Text ==> v.after_change(next_kind(v.current().kind), cycles(v.current().kind)).dirty
            == v.dirty,
        v.current().kind is Text ==> v.after_change(prev_kind(v.current().kind), cycles(v.current().kind)).dirty
            == v.dirty,
{
}

/// Answering an edit of a colour or number with the decimal text of a value in
/// its range gives the setting that value and marks the settings as modified.
pub proof fn law_edit_takes_decimal(v: AppView, n: nat)
    requires
        v.selected(),
    ensures
        v.current().kind is Color && n <= 255 ==> {
            let w = v.after_change(
                edited_kind(v.current().kind, decimal(n)),
                answer_taken(v.current().kind, decimal(n)),
            );
            w.dirty && w.current().kind == KindView::Color(n as u8)
        },
        v.current().kind is Number && n <= u64::MAX ==> {
            let w = v.after_change(
                edited_kind(v.current().kind, decimal(n)),
                answer_taken(v.current().kind, decimal(n)),
            );
            w.dirty && w.current().kind == KindView::Number(n as u64)
        },
{
    if v.current().kind is Color && n <= 255 {
        law_decimal_parses_back(n, 255);
    }
    if v.current().kind is Number && n <= u64::MAX {
        law_decimal_parses_back(n, u64::MAX as nat);
    }
}

/// Answering an edit of a text with a non-empty text makes it the setting's value
/// and marks the settings as modified; an empty answer changes nothing.
pub proof fn law_edit_text(v: AppView, answer: Seq<char>)
    requires
        v.selected(),
        v.current().kind is Text,
    ensures
        answer.len() > 0 ==> {
            let w = v.after_change(edited_kind(v.current().kind, answer), answer_taken(v.current().kind, answer));
            w.dirty && w.current().kind == KindView::Text(answer)
        },
        answer.len() == 0 ==> {
            let w = v.after_change(edited_kind(v.current().kind, answer), answer_taken(v.current().kind, answer));
            w.dirty == v.dirty && w.current() == v.current()
        },
{
}

} // verus!
