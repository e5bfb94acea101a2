//! Light and dark themes.

use vstd::prelude::*;
use crate::text::str_eq;

verus! {

#[derive(Debug, Clone, Copy, PartialEq, Eq, Structural)]
pub enum ThemeMode {
    Dark,
    Light,
    Auto,
}

#[derive(Debug, Clone, Copy, PartialEq, Eq, Structural)]
pub enum ResolvedTheme {
    Dark,
    Light,
}

/// The theme mode a configuration string names; anything unknown is `Auto`.
pub open spec fn theme_mode_of(s: Seq<char>) -> ThemeMode {
    if s == "dark"@ {
        ThemeMode::Dark
    } else if s == "light"@ {
        ThemeMode::Light
    } else {
        ThemeMode::Auto
    }
}

pub open spec fn theme_mode_code(m: ThemeMode) -> Seq<char> {
    match m {
        ThemeMode::Dark => "dark"@,
        ThemeMode::Light => "light"@,
        ThemeMode::Auto => "auto"@,
    }
}

/// The effective theme: the mode itself, or for `Auto` the system's choice.
pub open spec fn resolved(mode: ThemeMode, system_is_light: bool) -> ResolvedTheme {
    match mode {
        ThemeMode::Dark => ResolvedTheme::Dark,
        ThemeMode::Light => ResolvedTheme::Light,
        ThemeMode::Auto => if system_is_light {
            ResolvedTheme::Light
        } else {
            ResolvedTheme::Dark
        },
    }
}

impl ThemeMode {
    pub fn from_str(s: &str) -> (r: Self)
        ensures
            r == theme_mode_of(s@),
    {
        if str_eq(s, "dark") {
            ThemeMode::Dark
        } else if str_eq(s, "light") {
            ThemeMode::Light
        } else {
            ThemeMode::Auto
        }
    }

    pub fn as_str(&self) -> (r: &'static str)
        ensures
            r@ == theme_mode_code(*self),
    {
        match self {
            ThemeMode::Dark => "dark",
            ThemeMode::Light => "light",
            ThemeMode::Auto => "auto",
        }
    }
}

/// Resolve the effective theme (Dark or Light) accounting for Auto mode;
/// `system_is_light` is what the system reports (see `system_light_theme`).
pub fn resolve_theme(mode: ThemeMode, system_is_light: bool) -> (r: ResolvedTheme)
    ensures
        r == resolved(mode, system_is_light),
{
    match mode {
        ThemeMode::Dark => ResolvedTheme::Dark,
        ThemeMode::Light => ResolvedTheme::Light,
        ThemeMode::Auto => if system_is_light {
            ResolvedTheme::Light
        } else {
            ResolvedTheme::Dark
        },
    }
}

/// Whether the system is in light mode, from the `AppsUseLightTheme`
/// registry value (`None` when it could not be read, which means dark).
pub fn system_light_theme(apps_use_light_theme: Option<u32>) -> (r: bool)
    ensures
        r == (apps_use_light_theme matches Some(v) && v != 0),
{
    match apps_use_light_theme {
        Some(v) => v != 0,
        None => false,
    }
}

/// A mode read back from its code is the same mode.
pub proof fn law_theme_mode_round_trip(m: ThemeMode)
    ensures
        theme_mode_of(theme_mode_code(m)) == m,
{
    reveal_strlit("dark");
    reveal_strlit("light");
    reveal_strlit("auto");
    assert("auto"@[0] != "dark"@[0]);
    assert("auto"@.len() != "light"@.len());
    assert("light"@.len() != "dark"@.len());
}


/// A theme chosen explicitly is never overridden by the system: "light"
/// stays light and "dark" stays dark whatever the system uses; only `Auto`
/// follows the system's setting.
pub proof fn law_explicit_theme_wins(system_is_light: bool)
    ensures
        resolved(ThemeMode::Light, system_is_light) == ResolvedTheme::Light,
        resolved(ThemeMode::Dark, system_is_light) == ResolvedTheme::Dark,
        resolved(ThemeMode::Auto, true) == ResolvedTheme::Light,
        resolved(ThemeMode::Auto, false) == ResolvedTheme::Dark,
{
}

} // verus!
