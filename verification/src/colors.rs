//! The popup's colour palette.
//!
//! Colours are Win32 `COLORREF` values, `0x00BBGGRR`.

use vstd::prelude::*;
use crate::config::CustomColors;
use crate::theme::ResolvedTheme;
use crate::usage::{Centis, reaches};

verus! {

/// A Win32 colour, `0x00BBGGRR`.
pub type ColorRef = u32;

pub open spec fn rgb_spec(r: u8, g: u8, b: u8) -> u32 {
    (r as int + g as int * 256 + b as int * 65536) as u32
}

/// The colour with the given red, green and blue bytes.
pub fn rgb(r: u8, g: u8, b: u8) -> (c: ColorRef)
    ensures
        c == rgb_spec(r, g, b),
{
    let c = (b as u32) << 16 | (g as u32) << 8 | r as u32;
    assert(c == r as u32 + g as u32 * 256 + b as u32 * 65536) by (bit_vector)
        requires
            c == (b as u32) << 16 | (g as u32) << 8 | r as u32,
    ;
    c
}

#[derive(Debug, Clone, Copy, PartialEq, Eq, Structural)]
pub struct ThemeColors {
    pub background: ColorRef,
    pub surface: ColorRef,
    pub text_primary: ColorRef,
    pub text_secondary: ColorRef,
    pub progress_bg: ColorRef,
    pub green: ColorRef,
    pub yellow: ColorRef,
    pub red: ColorRef,
    pub accent: ColorRef,
    pub separator: ColorRef,
    pub hover: ColorRef,
    pub border: ColorRef,
}

/// The dark palette (Catppuccin Mocha).
pub open spec fn dark_palette() -> ThemeColors {
    ThemeColors {
        background: rgb_spec(0x1e, 0x1e, 0x2e),
        surface: rgb_spec(0x31, 0x32, 0x44),
        text_primary: rgb_spec(0xcd, 0xd6, 0xf4),
        text_secondary: rgb_spec(0xa6, 0xad, 0xc8),
        progress_bg: rgb_spec(0x45, 0x47, 0x5a),
        green: rgb_spec(0x40, 0xa0, 0x2b),
        yellow: rgb_spec(0xdf, 0x8e, 0x1d),
        red: rgb_spec(0xd2, 0x0f, 0x39),
        accent: rgb_spec(0x89, 0xb4, 0xfa),
        separator: rgb_spec(0x45, 0x47, 0x5a),
        hover: rgb_spec(0x3b, 0x3c, 0x50),
        border: rgb_spec(0x45, 0x47, 0x5a),
    }
}

/// The light palette (Catppuccin Latte).
pub open spec fn light_palette() -> ThemeColors {
    ThemeColors {
        background: rgb_spec(0xef, 0xf1, 0xf5),
        surface: rgb_spec(0xdc, 0xe0, 0xe8),
        text_primary: rgb_spec(0x4c, 0x4f, 0x69),
        text_secondary: rgb_spec(0x6c, 0x6f, 0x85),
        progress_bg: rgb_spec(0xbc, 0xc0, 0xcc),
        green: rgb_spec(0x40, 0xa0, 0x2b),
        yellow: rgb_spec(0xdf, 0x8e, 0x1d),
        red: rgb_spec(0xd2, 0x0f, 0x39),
        accent: rgb_spec(0x1e, 0x66, 0xf5),
        separator: rgb_spec(0xbc, 0xc0, 0xcc),
        hover: rgb_spec(0xce, 0xd3, 0xdd),
        border: rgb_spec(0x9c, 0xa0, 0xb0),
    }
}

/// The value of an ASCII hexadecimal digit.
pub open spec fn hex_digit(b: u8) -> Option<u8> {
    if 0x30 <= b <= 0x39 {
        Some((b - 0x30) as u8)
    } else if 0x61 <= b <= 0x66 {
        Some((b - 0x61 + 10) as u8)
    } else if 0x41 <= b <= 0x46 {
        Some((b - 0x41 + 10) as u8)
    } else {
        None
    }
}

/// `u8::from_str_radix(pair, 16)` for a two-byte string: two hex digits, or
/// `+` and one hex digit.
pub open spec fn hex_pair(a: u8, b: u8) -> Option<u8> {
    match (hex_digit(a), hex_digit(b)) {
        (Some(x), Some(y)) => Some((x * 16 + y) as u8),
        (None, Some(y)) => if a == 0x2b {
            Some(y)
        } else {
            None
        },
        _ => None,
    }
}

/// The bytes of `s` with every leading `#` removed.
pub open spec fn trim_hashes(s: Seq<u8>) -> Seq<u8>
    decreases s.len(),
{
    if s.len() > 0 && s[0] == 0x23 {
        trim_hashes(s.drop_first())
    } else {
        s
    }
}

pub open spec fn continuation(b: u8) -> bool {
    0x80 <= b < 0xC0
}

/// Whether an override can be read without splitting a character: a value of
/// six bytes (after its `#`s) is cut at bytes 2 and 4, which must begin
/// characters.
pub open spec fn override_readable(v: Option<String>) -> bool {
    match v {
        None => true,
        Some(h) => {
            let t = trim_hashes(vstd::utf8::encode_utf8(h@));
            t.len() == 6 ==> !continuation(t[2]) && !continuation(t[4])
        },
    }
}

/// The colour an override gives: a six-digit hex value (`#` optional)
/// replaces `current`; anything else leaves it.
pub open spec fn overridden(current: u32, v: Option<String>) -> u32 {
    match v {
        None => current,
        Some(h) => {
            let t = trim_hashes(vstd::utf8::encode_utf8(h@));
            if t.len() == 6 {
                match (hex_pair(t[0], t[1]), hex_pair(t[2], t[3]), hex_pair(t[4], t[5])) {
                    (Some(r), Some(g), Some(b)) => rgb_spec(r, g, b),
                    _ => current,
                }
            } else {
                current
            }
        },
    }
}

pub open spec fn custom_readable(c: CustomColors) -> bool {
    &&& override_readable(c.background)
    &&& override_readable(c.surface)
    &&& override_readable(c.text_primary)
    &&& override_readable(c.text_secondary)
    &&& override_readable(c.progress_bg)
    &&& override_readable(c.green)
    &&& override_readable(c.yellow)
    &&& override_readable(c.red)
    &&& override_readable(c.accent)
    &&& override_readable(c.separator)
    &&& override_readable(c.hover)
    &&& override_readable(c.border)
}

pub open spec fn with_overrides_spec(t: ThemeColors, c: CustomColors) -> ThemeColors {
    ThemeColors {
        background: overridden(t.background, c.background),
        surface: overridden(t.surface, c.surface),
        text_primary: overridden(t.text_primary, c.text_primary),
        text_secondary: overridden(t.text_secondary, c.text_secondary),
        progress_bg: overridden(t.progress_bg, c.progress_bg),
        green: overridden(t.green, c.green),
        yellow: overridden(t.yellow, c.yellow),
        red: overridden(t.red, c.red),
        accent: overridden(t.accent, c.accent),
        separator: overridden(t.separator, c.separator),
        hover: overridden(t.hover, c.hover),
        border: overridden(t.border, c.border),
    }
}

/// The bar colour for a utilization: red from 80%, yellow from 50%, else green.
pub open spec fn progress_color_spec(t: ThemeColors, c: int) -> u32 {
    if reaches(c, 80) {
        t.red
    } else if reaches(c, 50) {
        t.yellow
    } else {
        t.green
    }
}

fn hex_digit_of(b: u8) -> (r: Option<u8>)
    ensures
        r == hex_digit(b),
{
    if 0x30 <= b && b <= 0x39 {
        Some(b - 0x30)
    } else if 0x61 <= b && b <= 0x66 {
        Some(b - 0x61 + 10)
    } else if 0x41 <= b && b <= 0x46 {
        Some(b - 0x41 + 10)
    } else {
        None
    }
}

fn hex_pair_of(a: u8, b: u8) -> (r: Option<u8>)
    ensures
        r == hex_pair(a, b),
{
    match (hex_digit_of(a), hex_digit_of(b)) {
        (Some(x), Some(y)) => Some(x * 16 + y),
        (None, Some(y)) => if a == 0x2b {
            Some(y)
        } else {
            None
        },
        _ => None,
    }
}

/// The colour `v` overrides `current` with.
fn apply_override(current: ColorRef, v: &Option<String>) -> (r: ColorRef)
    requires
        override_readable(*v),
    ensures
        r == overridden(current, *v),
{
    match v {
        None => current,
        Some(h) => {
            let bytes = h.as_str().as_bytes();
            let n = bytes.len();
            let mut i: usize = 0;
            assert(bytes@.subrange(0, n as int) =~= bytes@);
            while i < n && bytes[i] == 0x23
                invariant
                    n == bytes@.len(),
                    i <= n,
                    trim_hashes(bytes@.subrange(i as int, n as int)) == trim_hashes(bytes@),
                decreases n - i,
            {
                assert(bytes@.subrange(i as int, n as int).drop_first() =~= bytes@.subrange(
                    i + 1,
                    n as int,
                ));
                i = i + 1;
            }
            let ghost t = bytes@.subrange(i as int, n as int);
            if i < n {
                assert(t[0] != 0x23);
            }
            assert(trim_hashes(t) == t);
            if n - i != 6 {
                return current;
            }
            assert(t[0] == bytes@[i as int] && t[5] == bytes@[i + 5]);
            match (
                hex_pair_of(bytes[i], bytes[i + 1]),
                hex_pair_of(bytes[i + 2], bytes[i + 3]),
                hex_pair_of(bytes[i + 4], bytes[i + 5]),
            ) {
                (Some(r), Some(g), Some(b)) => rgb(r, g, b),
                _ => current,
            }
        },
    }
}

impl ThemeColors {
    /// The palette for a theme.
    pub fn for_theme(theme: ResolvedTheme) -> (r: Self)
        ensures
            r == (match theme {
                ResolvedTheme::Dark => dark_palette(),
                ResolvedTheme::Light => light_palette(),
            }),
    {
        match theme {
            ResolvedTheme::Dark => Self::dark(),
            ResolvedTheme::Light => Self::light(),
        }
    }

    /// Apply custom color overrides from config.
    pub fn with_overrides(self, custom: &CustomColors) -> (r: Self)
        requires
            custom_readable(*custom),
        ensures
            r == with_overrides_spec(self, *custom),
    {
        let mut t = self;
        t.background = apply_override(t.background, &custom.background);
        t.surface = apply_override(t.surface, &custom.surface);
        t.text_primary = apply_override(t.text_primary, &custom.text_primary);
        t.text_secondary = apply_override(t.text_secondary, &custom.text_secondary);
        t.progress_bg = apply_override(t.progress_bg, &custom.progress_bg);
        t.green = apply_override(t.green, &custom.green);
        t.yellow = apply_override(t.yellow, &custom.yellow);
        t.red = apply_override(t.red, &custom.red);
        t.accent = apply_override(t.accent, &custom.accent);
        t.separator = apply_override(t.separator, &custom.separator);
        t.hover = apply_override(t.hover, &custom.hover);
        t.border = apply_override(t.border, &custom.border);
        t
    }

    fn dark() -> (r: Self)
        ensures
            r == dark_palette(),
    {
        ThemeColors {
            background: rgb(0x1e, 0x1e, 0x2e),
            surface: rgb(0x31, 0x32, 0x44),
            text_primary: rgb(0xcd, 0xd6, 0xf4),
            text_secondary: rgb(0xa6, 0xad, 0xc8),
            progress_bg: rgb(0x45, 0x47, 0x5a),
            green: rgb(0x40, 0xa0, 0x2b),
            yellow: rgb(0xdf, 0x8e, 0x1d),
            red: rgb(0xd2, 0x0f, 0x39),
            accent: rgb(0x89, 0xb4, 0xfa),
            separator: rgb(0x45, 0x47, 0x5a),
            hover: rgb(0x3b, 0x3c, 0x50),
            border: rgb(0x45, 0x47, 0x5a),
        }
    }

    fn light() -> (r: Self)
        ensures
            r == light_palette(),
    {
        ThemeColors {
            background: rgb(0xef, 0xf1, 0xf5),
            surface: rgb(0xdc, 0xe0, 0xe8),
            text_primary: rgb(0x4c, 0x4f, 0x69),
            text_secondary: rgb(0x6c, 0x6f, 0x85),
            progress_bg: rgb(0xbc, 0xc0, 0xcc),
            green: rgb(0x40, 0xa0, 0x2b),
            yellow: rgb(0xdf, 0x8e, 0x1d),
            red: rgb(0xd2, 0x0f, 0x39),
            accent: rgb(0x1e, 0x66, 0xf5),
            separator: rgb(0xbc, 0xc0, 0xcc),
            hover: rgb(0xce, 0xd3, 0xdd),
            border: rgb(0x9c, 0xa0, 0xb0),
        }
    }

    /// The bar colour for a utilization.
    pub fn progress_color(&self, utilization: Centis) -> (r: ColorRef)
        ensures
            r == progress_color_spec(*self, utilization as int),
    {
        if utilization >= 8000 {
            self.red
        } else if utilization >= 5000 {
            self.yellow
        } else {
            self.green
        }
    }
}

} // verus!
