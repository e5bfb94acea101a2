//! Interface languages, translation lookup and duration formatting.

use vstd::prelude::*;
use crate::text::{dec, push_dec, push_str, str_eq};

pub mod cs;
pub mod es;
pub mod tl;
pub mod uk;

verus! {

#[derive(Debug, Clone, Copy, PartialEq, Eq, Structural)]
pub enum Locale {
    En,
    Uk,
    Es,
    De,
    Fr,
    Pt,
    Ja,
    Ko,
    Zh,
    It,
    Hi,
    Tr,
    Nl,
    Pl,
    Vi,
}

/// The configuration code of a locale.
pub open spec fn locale_code(l: Locale) -> Seq<char> {
    match l {
        Locale::En => "en"@,
        Locale::Uk => "uk"@,
        Locale::Es => "es"@,
        Locale::De => "de"@,
        Locale::Fr => "fr"@,
        Locale::Pt => "pt"@,
        Locale::Ja => "ja"@,
        Locale::Ko => "ko"@,
        Locale::Zh => "zh"@,
        Locale::It => "it"@,
        Locale::Hi => "hi"@,
        Locale::Tr => "tr"@,
        Locale::Nl => "nl"@,
        Locale::Pl => "pl"@,
        Locale::Vi => "vi"@,
    }
}

/// The name of a locale in its own language.
pub open spec fn locale_display_name(l: Locale) -> Seq<char> {
    match l {
        Locale::En => "English"@,
        Locale::Uk => "\u{0423}\u{043a}\u{0440}\u{0430}\u{0457}\u{043d}\u{0441}\u{044c}\u{043a}\u{0430}"@,
        Locale::Es => "Espa\u{00f1}ol"@,
        Locale::De => "Deutsch"@,
        Locale::Fr => "Fran\u{00e7}ais"@,
        Locale::Pt => "Portugu\u{00ea}s"@,
        Locale::Ja => "\u{65e5}\u{672c}\u{8a9e}"@,
        Locale::Ko => "\u{d55c}\u{ad6d}\u{c5b4}"@,
        Locale::Zh => "\u{4e2d}\u{6587}"@,
        Locale::It => "Italiano"@,
        Locale::Hi => "\u{0939}\u{093f}\u{0928}\u{094d}\u{0926}\u{0940}"@,
        Locale::Tr => "T\u{00fc}rk\u{00e7}e"@,
        Locale::Nl => "Nederlands"@,
        Locale::Pl => "Polski"@,
        Locale::Vi => "Ti\u{1ebf}ng Vi\u{1ec7}t"@,
    }
}

/// The locales in the order the settings cycle through them.
pub open spec fn all_locales() -> Seq<Locale> {
    seq![
        Locale::En,
        Locale::Uk,
        Locale::Es,
        Locale::De,
        Locale::Fr,
        Locale::Pt,
        Locale::It,
        Locale::Hi,
        Locale::Tr,
        Locale::Nl,
        Locale::Pl,
        Locale::Vi,
        Locale::Ja,
        Locale::Ko,
        Locale::Zh,
    ]
}

/// The locale of a Windows language id (by its primary language, the low
/// ten bits); English for any other language.
pub open spec fn locale_of_langid(lang_id: u16) -> Locale {
    let primary = lang_id & 0x3FF;
    if primary == 0x22 {
        Locale::Uk
    } else if primary == 0x0A {
        Locale::Es
    } else if primary == 0x07 {
        Locale::De
    } else if primary == 0x0C {
        Locale::Fr
    } else if primary == 0x16 {
        Locale::Pt
    } else if primary == 0x11 {
        Locale::Ja
    } else if primary == 0x12 {
        Locale::Ko
    } else if primary == 0x04 {
        Locale::Zh
    } else if primary == 0x10 {
        Locale::It
    } else if primary == 0x39 {
        Locale::Hi
    } else if primary == 0x1F {
        Locale::Tr
    } else if primary == 0x13 {
        Locale::Nl
    } else if primary == 0x15 {
        Locale::Pl
    } else if primary == 0x2A {
        Locale::Vi
    } else {
        Locale::En
    }
}

impl Locale {
    /// The locale with the configuration code `s`, if any.
    pub fn from_str(s: &str) -> (r: Option<Self>)
        ensures
            match r {
                Some(l) => locale_code(l) == s@,
                None => forall|l: Locale| locale_code(l) != s@,
            },
    {
        let all = Self::all();
        let mut i: usize = 0;
        while i < all.len()
            invariant
                all@ == all_locales(),
                i <= all@.len(),
                forall|j: int| 0 <= j < i ==> locale_code(all_locales()[j]) != s@,
            decreases all@.len() - i,
        {
            let l = all[i];
            if str_eq(l.as_str(), s) {
                return Some(l);
            }
            i = i + 1;
        }
        assert forall|l: Locale| locale_code(l) != s@ by {
            lemma_in_all_locales(l);
        }
        None
    }

    /// The configuration code of this locale.
    pub fn as_str(&self) -> (r: &'static str)
        ensures
            r@ == locale_code(*self),
    {
        match self {
            Locale::En => "en",
            Locale::Uk => "uk",
            Locale::Es => "es",
            Locale::De => "de",
            Locale::Fr => "fr",
            Locale::Pt => "pt",
            Locale::Ja => "ja",
            Locale::Ko => "ko",
            Locale::Zh => "zh",
            Locale::It => "it",
            Locale::Hi => "hi",
            Locale::Tr => "tr",
            Locale::Nl => "nl",
            Locale::Pl => "pl",
            Locale::Vi => "vi",
        }
    }

    /// Human-readable name for display in settings.
    pub fn display_name(&self) -> (r: &'static str)
        ensures
            r@ == locale_display_name(*self),
    {
        match self {
            Locale::En => "English",
            Locale::Uk => "\u{0423}\u{043a}\u{0440}\u{0430}\u{0457}\u{043d}\u{0441}\u{044c}\u{043a}\u{0430}",
            Locale::Es => "Espa\u{00f1}ol",
            Locale::De => "Deutsch",
            Locale::Fr => "Fran\u{00e7}ais",
            Locale::Pt => "Portugu\u{00ea}s",
            Locale::Ja => "\u{65e5}\u{672c}\u{8a9e}",
            Locale::Ko => "\u{d55c}\u{ad6d}\u{c5b4}",
            Locale::Zh => "\u{4e2d}\u{6587}",
            Locale::It => "Italiano",
            Locale::Hi => "\u{0939}\u{093f}\u{0928}\u{094d}\u{0926}\u{0940}",
            Locale::Tr => "T\u{00fc}rk\u{00e7}e",
            Locale::Nl => "Nederlands",
            Locale::Pl => "Polski",
            Locale::Vi => "Ti\u{1ebf}ng Vi\u{1ec7}t",
        }
    }

    /// All available locales in order.
    pub fn all() -> (r: Vec<Self>)
        ensures
            r@ == all_locales(),
    {
        let r = vec![
            Locale::En,
            Locale::Uk,
            Locale::Es,
            Locale::De,
            Locale::Fr,
            Locale::Pt,
            Locale::It,
            Locale::Hi,
            Locale::Tr,
            Locale::Nl,
            Locale::Pl,
            Locale::Vi,
            Locale::Ja,
            Locale::Ko,
            Locale::Zh,
        ];
        assert(r@ =~= all_locales());
        r
    }

    /// Next locale in cycling order (for settings); `None` after the last,
    /// where the settings wrap round to "auto".
    pub fn next(&self) -> (r: Option<Self>)
        ensures
            ({
                let i = all_locales().index_of(*self);
                if i + 1 < all_locales().len() {
                    r == Some(all_locales()[i + 1])
                } else {
                    r is None
                }
            }),
    {
        let all = Self::all();
        let mut i: usize = 0;
        proof {
            lemma_in_all_locales(*self);
        }
        while i < all.len()
            invariant
                all@ == all_locales(),
                i <= all@.len(),
                all_locales().contains(*self),
                forall|j: int| 0 <= j < i ==> all_locales()[j] != *self,
            decreases all@.len() - i,
        {
            if all[i] == *self {
                proof {
                    lemma_locales_distinct();
                    assert(all_locales().index_of(*self) == i);
                }
                if i + 1 < all.len() {
                    return Some(all[i + 1]);
                } else {
                    return None;
                }
            }
            i = i + 1;
        }
        proof {
            let j = choose|j: int| 0 <= j < all_locales().len() && all_locales()[j] == *self;
        }
        None
    }

    /// The locale for a Windows user-interface language id.
    pub fn from_langid(lang_id: u16) -> (r: Self)
        ensures
            r == locale_of_langid(lang_id),
    {
        let primary = lang_id & 0x3FF;
        match primary {
            0x22 => Locale::Uk,
            0x0A => Locale::Es,
            0x07 => Locale::De,
            0x0C => Locale::Fr,
            0x16 => Locale::Pt,
            0x11 => Locale::Ja,
            0x12 => Locale::Ko,
            0x04 => Locale::Zh,
            0x10 => Locale::It,
            0x39 => Locale::Hi,
            0x1F => Locale::Tr,
            0x13 => Locale::Nl,
            0x15 => Locale::Pl,
            0x2A => Locale::Vi,
            _ => Locale::En,
        }
    }
}

/// Every locale is listed in `all_locales`.
proof fn lemma_in_all_locales(l: Locale)
    ensures
        all_locales().contains(l),
{
    let a = all_locales();
    match l {
        Locale::En => assert(a[0] == l),
        Locale::Uk => assert(a[1] == l),
        Locale::Es => assert(a[2] == l),
        Locale::De => assert(a[3] == l),
        Locale::Fr => assert(a[4] == l),
        Locale::Pt => assert(a[5] == l),
        Locale::It => assert(a[6] == l),
        Locale::Hi => assert(a[7] == l),
        Locale::Tr => assert(a[8] == l),
        Locale::Nl => assert(a[9] == l),
        Locale::Pl => assert(a[10] == l),
        Locale::Vi => assert(a[11] == l),
        Locale::Ja => assert(a[12] == l),
        Locale::Ko => assert(a[13] == l),
        Locale::Zh => assert(a[14] == l),
    }
}

proof fn lemma_locales_distinct()
    ensures
        all_locales().no_duplicates(),
{
    let a = all_locales();
    assert forall|i: int, j: int| 0 <= i < a.len() && 0 <= j < a.len() && i != j implies a[i]
        != a[j] by {
    }
}

/// A translation table as views: (key, translation) pairs in insertion order.
pub open spec fn entries_view(t: Seq<(&str, &str)>) -> Seq<(Seq<char>, Seq<char>)> {
    t.map_values(|e: (&str, &str)| (e.0@, e.1@))
}

/// The translation of `key` in a table: the last entry with that key wins,
/// as with repeated map inserts.
pub open spec fn lookup(t: Seq<(Seq<char>, Seq<char>)>, key: Seq<char>) -> Option<Seq<char>>
    decreases t.len(),
{
    if t.len() == 0 {
        None
    } else if t.last().0 == key {
        Some(t.last().1)
    } else {
        lookup(t.drop_last(), key)
    }
}

/// The table of a locale. Only the Spanish and (partially) Ukrainian tables
/// are part of this library; the others are empty, so their lookups fall back
/// to the English table, then to the key.
pub open spec fn locale_table(l: Locale) -> Seq<(Seq<char>, Seq<char>)> {
    match l {
        Locale::Es => es::table(),
        Locale::Uk => uk::table(),
        _ => Seq::empty(),
    }
}

/// The English table that every lookup falls back to. The English texts are
/// not part of this library, so it is empty and a key missing from a
/// locale's table comes back unchanged (most keys are English text already).
pub open spec fn english_table() -> Seq<(Seq<char>, Seq<char>)> {
    Seq::empty()
}

/// What `t` gives for `key`: the locale's translation, else the English
/// one, else the key itself.
pub open spec fn translate(
    strings: Seq<(Seq<char>, Seq<char>)>,
    fallback: Seq<(Seq<char>, Seq<char>)>,
    key: Seq<char>,
) -> Seq<char> {
    match lookup(strings, key) {
        Some(v) => v,
        None => match lookup(fallback, key) {
            Some(v) => v,
            None => key,
        },
    }
}

pub struct I18n {
    locale: Locale,
    strings: Vec<(&'static str, &'static str)>,
    fallback: Vec<(&'static str, &'static str)>,
}

/// Looks `key` up in `table`, last entry first.
fn lookup_in(table: &Vec<(&'static str, &'static str)>, key: &str) -> (r: Option<&'static str>)
    ensures
        match r {
            Some(v) => lookup(entries_view(table@), key@) == Some(v@),
            None => lookup(entries_view(table@), key@) is None,
        },
{
    let mut i: usize = table.len();
    assert(table@.take(i as int) =~= table@);
    while i > 0
        invariant
            i <= table@.len(),
            lookup(entries_view(table@), key@) == lookup(entries_view(table@.take(i as int)), key@),
        decreases i,
    {
        let e = table[i - 1];
        assert(entries_view(table@.take(i as int)).drop_last() =~= entries_view(
            table@.take(i - 1),
        ));
        if str_eq(e.0, key) {
            return Some(e.1);
        }
        i = i - 1;
    }
    None
}

impl I18n {
    pub closed spec fn spec_locale(&self) -> Locale {
        self.locale
    }

    pub closed spec fn spec_strings(&self) -> Seq<(Seq<char>, Seq<char>)> {
        entries_view(self.strings@)
    }

    pub closed spec fn spec_fallback(&self) -> Seq<(Seq<char>, Seq<char>)> {
        entries_view(self.fallback@)
    }

    /// The translations for `locale`, falling back to English.
    pub fn new(locale: Locale) -> (r: Self)
        ensures
            r.spec_locale() == locale,
            r.spec_strings() == locale_table(locale),
            r.spec_fallback() == english_table(),
    {
        let strings = match locale {
            Locale::Es => es::strings(),
            Locale::Uk => uk::strings(),
            _ => Vec::new(),
        };
        let fallback: Vec<(&'static str, &'static str)> = Vec::new();
        proof {
            if !(locale is Es || locale is Uk) {
                assert(entries_view(strings@) =~= Seq::<(Seq<char>, Seq<char>)>::empty());
            }
            assert(entries_view(fallback@) =~= Seq::<(Seq<char>, Seq<char>)>::empty());
        }
        I18n { locale, strings, fallback }
    }

    /// The translations for the configured language: the system locale for
    /// "auto", the named locale, or English for an unknown code.
    pub fn from_config(language: &str, system_locale: Locale) -> (r: Self)
        ensures
            r.spec_locale() == config_locale(language@, system_locale),
            r.spec_strings() == locale_table(r.spec_locale()),
            r.spec_fallback() == english_table(),
    {
        let locale = if str_eq(language, "auto") {
            system_locale
        } else {
            match Locale::from_str(language) {
                Some(l) => l,
                None => Locale::En,
            }
        };
        proof {
            if language@ != "auto"@ {
                lemma_locale_codes_distinct();
            }
        }
        Self::new(locale)
    }

    /// Translate a key. Falls back to English, then returns the key itself.
    pub fn t<'a>(&'a self, key: &'a str) -> (r: &'a str)
        ensures
            r@ == translate(self.spec_strings(), self.spec_fallback(), key@),
    {
        match lookup_in(&self.strings, key) {
            Some(v) => v,
            None => match lookup_in(&self.fallback, key) {
                Some(v) => v,
                None => key,
            },
        }
    }

    pub fn locale(&self) -> (r: Locale)
        ensures
            r == self.spec_locale(),
    {
        self.locale
    }
}

/// The locale a configured language names.
pub open spec fn config_locale(language: Seq<char>, system_locale: Locale) -> Locale {
    if language == "auto"@ {
        system_locale
    } else if exists|l: Locale| locale_code(l) == language {
        choose|l: Locale| locale_code(l) == language
    } else {
        Locale::En
    }
}

/// Distinct locales have distinct codes, each two characters long.
pub(crate) proof fn lemma_locale_codes_distinct()
    ensures
        forall|a: Locale, b: Locale| locale_code(a) == locale_code(b) ==> a == b,
        forall|l: Locale| #[trigger] locale_code(l).len() == 2,
{
    reveal_strlit("en");
    reveal_strlit("uk");
    reveal_strlit("es");
    reveal_strlit("de");
    reveal_strlit("fr");
    reveal_strlit("pt");
    reveal_strlit("ja");
    reveal_strlit("ko");
    reveal_strlit("zh");
    reveal_strlit("it");
    reveal_strlit("hi");
    reveal_strlit("tr");
    reveal_strlit("nl");
    reveal_strlit("pl");
    reveal_strlit("vi");
    assert forall|a: Locale, b: Locale| locale_code(a) == locale_code(b) implies a == b by {
        if a != b {
            assert(locale_code(a)[0] != locale_code(b)[0] || locale_code(a)[1] != locale_code(
                b,
            )[1]);
        }
    }
}

/// A duration in seconds as shown next to a reset: "now" when it is not
/// positive, else the two largest units ("1d 1h", "1h 1m"), or "5m", or "45s".
pub open spec fn duration_text(seconds: int) -> Seq<char> {
    if seconds <= 0 {
        "now"@
    } else {
        let days = seconds / 86400;
        let hours = (seconds % 86400) / 3600;
        let mins = (seconds % 3600) / 60;
        let secs = seconds % 60;
        if days > 0 {
            dec(days as nat) + "d "@ + dec(hours as nat) + "h"@
        } else if hours > 0 {
            dec(hours as nat) + "h "@ + dec(mins as nat) + "m"@
        } else if mins > 0 {
            dec(mins as nat) + "m"@
        } else {
            dec(secs as nat) + "s"@
        }
    }
}

/// A locale's code names that locale and no other, so parsing a locale's
/// code (`Locale::from_str(l.as_str())`) gives it back, and configuring the
/// code selects it.
pub proof fn law_locale_code_round_trip(l: Locale, m: Locale, system_locale: Locale)
    ensures
        locale_code(m) == locale_code(l) ==> m == l,
        config_locale(locale_code(l), system_locale) == l,
{
    lemma_locale_codes_distinct();
    reveal_strlit("auto");
    assert(locale_code(l).len() != "auto"@.len());
}

/// Cycling with `next` from English visits every locale exactly once: the
/// list it walks starts with English, holds every locale, and repeats none.
pub proof fn law_locale_cycle_covers_all(l: Locale)
    ensures
        all_locales()[0] == Locale::En,
        all_locales().contains(l),
        all_locales().no_duplicates(),
{
    lemma_in_all_locales(l);
    lemma_locales_distinct();
}

/// Format a duration in seconds into a human-readable string.
/// e.g. 3661 → "1h 1m", 45 → "45s", 90000 → "1d 1h"
pub fn format_duration(seconds: i64) -> (r: String)
    ensures
        r@ == duration_text(seconds as int),
{
    if seconds <= 0 {
        return crate::text::to_string("now");
    }
    let days = seconds / 86400;
    let hours = (seconds % 86400) / 3600;
    let mins = (seconds % 3600) / 60;
    let secs = seconds % 60;
    let mut r = String::new();
    if days > 0 {
        push_dec(&mut r, days as u64);
        push_str(&mut r, "d ");
        push_dec(&mut r, hours as u64);
        push_str(&mut r, "h");
    } else if hours > 0 {
        push_dec(&mut r, hours as u64);
        push_str(&mut r, "h ");
        push_dec(&mut r, mins as u64);
        push_str(&mut r, "m");
    } else if mins > 0 {
        push_dec(&mut r, mins as u64);
        push_str(&mut r, "m");
    } else {
        push_dec(&mut r, secs as u64);
        push_str(&mut r, "s");
    }
    r
}


/// A countdown shows whole units, each the floor of the time left: under a
/// minute the seconds; under an hour the whole minutes; under a day the
/// whole hours and the whole minutes past them; from a day on the whole
/// days and the whole hours past them. Nothing is rounded up.
pub proof fn law_duration_shows_whole_units(s: int)
    requires
        0 < s,
    ensures
        s < 60 ==> duration_text(s) == dec(s as nat) + "s"@,
        60 <= s < 3600 ==> exists|m: nat|
            m * 60 <= s < m * 60 + 60 && duration_text(s) == dec(m) + "m"@,
        3600 <= s < 86400 ==> exists|h: nat, m: nat|
            m < 60 && h * 3600 + m * 60 <= s < h * 3600 + m * 60 + 60 && duration_text(s) == dec(h)
                + "h "@ + dec(m) + "m"@,
        86400 <= s ==> exists|d: nat, h: nat|
            h < 24 && d * 86400 + h * 3600 <= s < d * 86400 + h * 3600 + 3600 && duration_text(s)
                == dec(d) + "d "@ + dec(h) + "h"@,
{
    let days = s / 86400;
    let hours = (s % 86400) / 3600;
    let mins = (s % 3600) / 60;
    assert(s == days * 86400 + (s % 86400) && 0 <= s % 86400 < 86400) by (nonlinear_arith)
        requires 0 < s, days == s / 86400;
    assert(s % 86400 == hours * 3600 + (s % 86400) % 3600 && 0 <= (s % 86400) % 3600 < 3600) by (nonlinear_arith)
        requires 0 < s, hours == (s % 86400) / 3600;
    assert((s % 86400) % 3600 == s % 3600) by (nonlinear_arith)
        requires 0 < s;
    assert(s % 3600 == mins * 60 + (s % 3600) % 60 && 0 <= (s % 3600) % 60 < 60) by (nonlinear_arith)
        requires 0 < s, mins == (s % 3600) / 60;
    assert(0 <= hours < 24 && 0 <= mins < 60);
    if s < 60 {
        assert(days == 0 && hours == 0 && mins == 0 && s % 60 == s);
    } else if s < 3600 {
        assert(days == 0 && hours == 0 && mins > 0);
        assert(duration_text(s) == dec(mins as nat) + "m"@);
    } else if s < 86400 {
        assert(days == 0 && hours > 0);
        assert(duration_text(s) == dec(hours as nat) + "h "@ + dec(mins as nat) + "m"@);
    } else {
        assert(days > 0);
        assert(duration_text(s) == dec(days as nat) + "d "@ + dec(hours as nat) + "h"@);
    }
}

} // verus!
