//! The built-in colour themes: their names in cycling order, and the colours each
//! gives to the parts of the prompt preview.
use vstd::prelude::*;
use crate::text::str_eq;

verus! {

/// The names of the built-in themes, in the order in which they are cycled.
pub open spec fn themes() -> Seq<Seq<char>> {
    seq!["default"@, "solarized"@, "dracula"@, "gruvbox"@, "nord"@, "monokai"@]
}

/// The number of built-in themes.
pub const THEME_COUNT: usize = 6;

/// The name of the `i`-th built-in theme.
pub fn theme_name(i: usize) -> (r: &'static str)
    requires
        i < THEME_COUNT,
    ensures
        r@ == themes()[i as int],
{
    if i == 0 {
        "default"
    } else if i == 1 {
        "solarized"
    } else if i == 2 {
        "dracula"
    } else if i == 3 {
        "gruvbox"
    } else if i == 4 {
        "nord"
    } else {
        "monokai"
    }
}

/// The position of the first of `opts` equal to `x`, or 0 when none is.
pub open spec fn position_or_zero(opts: Seq<Seq<char>>, x: Seq<char>) -> int {
    match opts.index_of_first(x) {
        Some(i) => i,
        None => 0,
    }
}

/// The position of `t` among the built-in themes, or 0 when it is none of them.
pub fn theme_position(t: &str) -> (r: usize)
    ensures
        r as int == position_or_zero(themes(), t@),
        r < THEME_COUNT,
{
    let mut i: usize = 0;
    while i < THEME_COUNT
        invariant
            i <= THEME_COUNT,
            forall|j: int| 0 <= j < i ==> themes()[j] != t@,
        decreases THEME_COUNT - i,
    {
        if str_eq(t, theme_name(i)) {
            proof {
                themes().index_of_first_ensures(t@);
                assert(themes().contains(t@));
            }
            return i;
        }
        i = i + 1;
    }
    proof {
        themes().index_of_first_ensures(t@);
        if themes().contains(t@) {
            let k = choose|k: int| 0 <= k < themes().len() && themes()[k] == t@;
            assert(themes()[k] != t@);
        }
    }
    0
}

/// The colours a theme gives to, in order: user, host, directory, git branch,
/// prompt, command, nick, and anything else.
pub struct Palette {
    pub user: u8,
    pub host: u8,
    pub cwd: u8,
    pub git: u8,
    pub prompt: u8,
    pub cmd: u8,
    pub nick: u8,
    pub other: u8,
}

pub open spec fn palette(user: u8, host: u8, cwd: u8, git: u8, prompt: u8, cmd: u8, nick: u8, other: u8) -> Palette {
    Palette { user, host, cwd, git, prompt, cmd, nick, other }
}

/// The palette of a theme; any name that is not one of the other built-in themes
/// gets the palette of the default theme.
pub open spec fn theme_palette(theme: Seq<char>) -> Palette {
    if theme == "solarized"@ {
        palette(136, 166, 37, 125, 136, 64, 33, 245)
    } else if theme == "dracula"@ {
        palette(117, 212, 84, 141, 141, 84, 117, 248)
    } else if theme == "gruvbox"@ {
        palette(214, 142, 109, 175, 214, 142, 108, 245)
    } else if theme == "nord"@ {
        palette(110, 150, 110, 139, 110, 150, 146, 246)
    } else if theme == "monokai"@ {
        palette(148, 81, 186, 141, 197, 148, 81, 246)
    } else {
        palette(2, 2, 81, 243, 208, 48, 87, 240)
    }
}

/// The colour a palette gives to the setting `key`.
pub open spec fn palette_color(p: Palette, key: Seq<char>) -> u8 {
    if key == "c_user"@ {
        p.user
    } else if key == "c_host"@ {
        p.host
    } else if key == "c_cwd"@ {
        p.cwd
    } else if key == "c_git"@ {
        p.git
    } else if key == "c_prompt"@ {
        p.prompt
    } else if key == "c_cmd"@ {
        p.cmd
    } else if key == "c_nick"@ {
        p.nick
    } else {
        p.other
    }
}

/// The colour that `theme` gives to the setting `key`.
pub open spec fn theme_color(theme: Seq<char>, key: Seq<char>) -> u8 {
    palette_color(theme_palette(theme), key)
}

fn palette_of(theme: &str) -> (r: Palette)
    ensures
        r == theme_palette(theme@),
{
    if str_eq(theme, "solarized") {
        Palette { user: 136, host: 166, cwd: 37, git: 125, prompt: 136, cmd: 64, nick: 33, other: 245 }
    } else if str_eq(theme, "dracula") {
        Palette { user: 117, host: 212, cwd: 84, git: 141, prompt: 141, cmd: 84, nick: 117, other: 248 }
    } else if str_eq(theme, "gruvbox") {
        Palette { user: 214, host: 142, cwd: 109, git: 175, prompt: 214, cmd: 142, nick: 108, other: 245 }
    } else if str_eq(theme, "nord") {
        Palette { user: 110, host: 150, cwd: 110, git: 139, prompt: 110, cmd: 150, nick: 146, other: 246 }
    } else if str_eq(theme, "monokai") {
        Palette { user: 148, host: 81, cwd: 186, git: 141, prompt: 197, cmd: 148, nick: 81, other: 246 }
    } else {
        Palette { user: 2, host: 2, cwd: 81, git: 243, prompt: 208, cmd: 48, nick: 87, other: 240 }
    }
}

/// The colour that `theme` gives to the setting `key`.
pub fn get_theme_color(theme: &str, key: &str) -> (r: u8)
    ensures
        r == theme_color(theme@, key@),
{
    let p = palette_of(theme);
    if str_eq(key, "c_user") {
        p.user
    } else if str_eq(key, "c_host") {
        p.host
    } else if str_eq(key, "c_cwd") {
        p.cwd
    } else if str_eq(key, "c_git") {
        p.git
    } else if str_eq(key, "c_prompt") {
        p.prompt
    } else if str_eq(key, "c_cmd") {
        p.cmd
    } else if str_eq(key, "c_nick") {
        p.nick
    } else {
        p.other
    }
}

} // verus!
