//! The decisions of the editor's terminal front end that do not touch the
//! terminal: what a key press asks for, where the panes go, what a save answer
//! means, and whether the shell is told to reload.
use vstd::prelude::*;
use crate::text::str_eq;
use crate::render::{Span, Style, sv};

verus! {

/// What a key press asks the editor to do.
#[derive(Clone, Copy, Debug, PartialEq, Eq, Structural)]
pub enum Action {
    Quit,
    MoveDown,
    MoveUp,
    NextCategory,
    PrevCategory,
    NextValue,
    PrevValue,
    Edit,
    Save,
    Resize,
    Ignore,
}

/// The action bound to a key name.
pub open spec fn key_action_spec(k: Seq<char>) -> Action {
    if k == "q"@ || k == "ESC"@ {
        Action::Quit
    } else if k == "j"@ || k == "DOWN"@ {
        Action::MoveDown
    } else if k == "k"@ || k == "UP"@ {
        Action::MoveUp
    } else if k == "J"@ || k == "PgDOWN"@ {
        Action::NextCategory
    } else if k == "K"@ || k == "PgUP"@ {
        Action::PrevCategory
    } else if k == "l"@ || k == "RIGHT"@ || k == "TAB"@ {
        Action::NextValue
    } else if k == "h"@ || k == "LEFT"@ || k == "S-TAB"@ {
        Action::PrevValue
    } else if k == "ENTER"@ {
        Action::Edit
    } else if k == "W"@ {
        Action::Save
    } else if k == "RESIZE"@ {
        Action::Resize
    } else {
        Action::Ignore
    }
}

/// The action bound to the key named `k`.
pub fn key_action(k: &str) -> (r: Action)
    ensures
        r == key_action_spec(k@),
{
    if str_eq(k, "q") || str_eq(k, "ESC") {
        Action::Quit
    } else if str_eq(k, "j") || str_eq(k, "DOWN") {
        Action::MoveDown
    } else if str_eq(k, "k") || str_eq(k, "UP") {
        Action::MoveUp
    } else if str_eq(k, "J") || str_eq(k, "PgDOWN") {
        Action::NextCategory
    } else if str_eq(k, "K") || str_eq(k, "PgUP") {
        Action::PrevCategory
    } else if str_eq(k, "l") || str_eq(k, "RIGHT") || str_eq(k, "TAB") {
        Action::NextValue
    } else if str_eq(k, "h") || str_eq(k, "LEFT") || str_eq(k, "S-TAB") {
        Action::PrevValue
    } else if str_eq(k, "ENTER") {
        Action::Edit
    } else if str_eq(k, "W") {
        Action::Save
    } else if str_eq(k, "RESIZE") {
        Action::Resize
    } else {
        Action::Ignore
    }
}

/// Whether the answer to the save question asks to save.
pub fn confirms_save(k: &str) -> (r: bool)
    ensures
        r == (k@ == "y"@ || k@ == "Y"@),
{
    str_eq(k, "y") || str_eq(k, "Y")
}

/// The question asked on quitting with unsaved changes.
pub fn save_question() -> (r: Span)
    ensures
        r@ == sv(" Save changes? (y/n)"@, Style::Fg(220)),
{
    Span { text: " Save changes? (y/n)".to_owned(), style: Style::Fg(220) }
}

/// Whether the parent process (the shell) is to be told to reload its
/// configuration: only a real parent, not init (1) or none (0).
pub fn should_signal_parent(ppid: i32) -> (r: bool)
    ensures
        r == (ppid > 1),
{
    ppid > 1
}

/// Where a pane goes on the terminal (1-based column and row of its top-left
/// corner, width, height) and its foreground and background colours.
#[derive(Clone, Copy, Debug, PartialEq, Eq, Structural)]
pub struct PaneGeometry {
    pub x: u16,
    pub y: u16,
    pub w: u16,
    pub h: u16,
    pub fg: u8,
    pub bg: u8,
}

/// The four panes of the editor.
#[derive(Clone, Copy, Debug, PartialEq, Eq, Structural)]
pub struct Layout {
    pub top: PaneGeometry,
    pub left: PaneGeometry,
    pub right: PaneGeometry,
    pub status: PaneGeometry,
}

pub open spec fn pane(x: u16, y: u16, w: u16, h: u16, fg: u8, bg: u8) -> PaneGeometry {
    PaneGeometry { x, y, w, h, fg, bg }
}

/// The panes on a terminal of `cols` columns and `rows` rows: a top bar, the
/// category pane 24 columns wide from column 2, the settings pane from column 28
/// to one column short of the right edge, both from row 3 down to 4 rows fewer
/// than the terminal, and the status bar on the last row.
pub open spec fn layout_spec(cols: u16, rows: u16) -> Layout {
    let rw: int = if cols >= 29 { cols - 29 } else { 0 };
    Layout {
        top: pane(1, 1, cols, 1, 0, 236),
        left: pane(2, 3, 24, (rows - 4) as u16, 255, 0),
        right: pane(28, 3, rw as u16, (rows - 4) as u16, 252, 0),
        status: pane(1, rows, cols, 1, 252, 236),
    }
}

/// The panes on a terminal of `cols` columns and `rows` rows (see `layout_spec`).
pub fn layout(cols: u16, rows: u16) -> (r: Layout)
    requires
        rows >= 4,
    ensures
        r == layout_spec(cols, rows),
{
    let split: u16 = 25;
    let lw = split - 1;
    let rx = split + 3;
    let rw = cols.saturating_sub(rx).saturating_sub(1);
    Layout {
        top: PaneGeometry { x: 1, y: 1, w: cols, h: 1, fg: 0, bg: 236 },
        left: PaneGeometry { x: 2, y: 3, w: lw, h: rows - 4, fg: 255, bg: 0 },
        right: PaneGeometry { x: rx, y: 3, w: rw, h: rows - 4, fg: 252, bg: 0 },
        status: PaneGeometry { x: 1, y: rows, w: cols, h: 1, fg: 252, bg: 236 },
    }
}

} // verus!
