//! Deciding whether a GitHub release is newer than the running version.

use vstd::prelude::*;
use crate::json::{json_string_at, lookup_json_string, lookup_view};
use crate::text::{
    dec, is_digit, lemma_dec_digits, parse_u32, parse_u32_spec, push_char, trim_start_char,
};

verus! {

/// The pieces of `s` between `.` separators (`str::split('.')`): always at
/// least one piece, empty pieces included.
pub open spec fn split_dots(s: Seq<char>) -> Seq<Seq<char>>
    decreases s.len(),
{
    if s.len() == 0 {
        seq![Seq::<char>::empty()]
    } else {
        let prev = split_dots(s.drop_last());
        if s.last() == '.' {
            prev.push(Seq::<char>::empty())
        } else {
            prev.update(prev.len() - 1, prev.last().push(s.last()))
        }
    }
}

/// The pieces that parse as `u32`, in order; the others are skipped.
pub open spec fn parsed_parts(pieces: Seq<Seq<char>>) -> Seq<u32>
    decreases pieces.len(),
{
    if pieces.len() == 0 {
        Seq::<u32>::empty()
    } else {
        let prev = parsed_parts(pieces.drop_last());
        match parse_u32_spec(pieces.last()) {
            Some(v) => prev.push(v),
            None => prev,
        }
    }
}

/// The numeric components of a dotted version string.
pub open spec fn version_numbers(s: Seq<char>) -> Seq<u32> {
    parsed_parts(split_dots(s))
}

/// Component `i`, or 0 when the version has fewer components.
pub open spec fn component(v: Seq<u32>, i: int) -> u32 {
    if 0 <= i < v.len() {
        v[i]
    } else {
        0
    }
}

/// The first three components compared lexicographically: `r` is newer.
pub open spec fn numbers_newer(r: Seq<u32>, c: Seq<u32>) -> bool {
    ||| component(r, 0) > component(c, 0)
    ||| component(r, 0) == component(c, 0) && component(r, 1) > component(c, 1)
    ||| component(r, 0) == component(c, 0) && component(r, 1) == component(c, 1) && component(
        r,
        2,
    ) > component(c, 2)
}

/// Whether version `remote` is newer than `current`.
pub open spec fn newer_spec(remote: Seq<char>, current: Seq<char>) -> bool {
    numbers_newer(version_numbers(remote), version_numbers(current))
}

proof fn lemma_parsed_parts_push(pieces: Seq<Seq<char>>, x: Seq<char>)
    ensures
        parsed_parts(pieces.push(x)) == match parse_u32_spec(x) {
            Some(v) => parsed_parts(pieces).push(v),
            None => parsed_parts(pieces),
        },
{
    assert(pieces.push(x).drop_last() =~= pieces);
}

/// The numeric components of a dotted version string, as `is_newer` reads
/// them.
pub fn version_numbers_of(s: &str) -> (r: Vec<u32>)
    ensures
        r@ == version_numbers(s@),
{
    let n = s.unicode_len();
    let mut out: Vec<u32> = Vec::new();
    let mut cur = String::new();
    let ghost mut done: Seq<Seq<char>> = Seq::empty();
    let mut i: usize = 0;
    assert(s@.take(0) =~= Seq::<char>::empty());
    while i < n
        invariant
            n == s@.len(),
            i <= n,
            split_dots(s@.take(i as int)) == done.push(cur@),
            out@ == parsed_parts(done),
        decreases n - i,
    {
        let c = s.get_char(i);
        assert(s@.take(i + 1).drop_last() =~= s@.take(i as int));
        assert(s@.take(i + 1).last() == c);
        if c == '.' {
            let p = parse_u32(cur.as_str());
            proof {
                lemma_parsed_parts_push(done, cur@);
            }
            match p {
                Some(v) => out.push(v),
                None => {},
            }
            proof {
                done = done.push(cur@);
            }
            cur = String::new();
            assert(split_dots(s@.take(i + 1)) =~= done.push(cur@));
        } else {
            let ghost before = cur@;
            push_char(&mut cur, c);
            assert(split_dots(s@.take(i + 1)) =~= done.push(cur@)) by {
                let prev = split_dots(s@.take(i as int));
                assert(prev == done.push(before));
                assert(prev.update(prev.len() - 1, prev.last().push(c)) =~= done.push(
                    before.push(c),
                ));
            }
        }
        i = i + 1;
    }
    let p = parse_u32(cur.as_str());
    proof {
        lemma_parsed_parts_push(done, cur@);
        assert(s@.take(n as int) =~= s@);
    }
    match p {
        Some(v) => out.push(v),
        None => {},
    }
    out
}

fn component_of(v: &Vec<u32>, i: usize) -> (r: u32)
    ensures
        r == component(v@, i as int),
{
    if i < v.len() {
        v[i]
    } else {
        0
    }
}

/// Simple semver comparison: true when `remote` is newer than `current`,
/// comparing the first three numeric components.
pub fn is_newer(remote: &str, current: &str) -> (r: bool)
    ensures
        r == newer_spec(remote@, current@),
{
    let rv = version_numbers_of(remote);
    let cv = version_numbers_of(current);
    let mut i: usize = 0;
    while i < 3
        invariant
            i <= 3,
            rv@ == version_numbers(remote@),
            cv@ == version_numbers(current@),
            forall|j: int| 0 <= j < i ==> component(rv@, j) == component(cv@, j),
        decreases 3 - i,
    {
        let a = component_of(&rv, i);
        let b = component_of(&cv, i);
        if a > b {
            return true;
        }
        if a < b {
            return false;
        }
        i = i + 1;
    }
    false
}

/// No version is newer than itself.
pub proof fn law_newer_irreflexive(v: Seq<char>)
    ensures
        !newer_spec(v, v),
{
}

/// Of two versions at most one is newer than the other.
pub proof fn law_newer_asymmetric(a: Seq<char>, b: Seq<char>)
    ensures
        newer_spec(a, b) ==> !newer_spec(b, a),
{
}

/// Being newer is transitive.
pub proof fn law_newer_transitive(a: Seq<char>, b: Seq<char>, c: Seq<char>)
    requires
        newer_spec(a, b),
        newer_spec(b, c),
    ensures
        newer_spec(a, c),
{
}

/// Where a release response holds the release's tag.
pub open spec fn tag_path() -> Seq<char> {
    "/tag_name"@
}

/// Where a release response holds the release's page.
pub open spec fn url_path() -> Seq<char> {
    "/html_url"@
}

/// What the release's tag and page lookups offer against `current`: both,
/// when both are strings and the tag (with leading `v`s dropped) is newer.
pub open spec fn offer_from(
    tag: Result<Option<Seq<char>>, Seq<char>>,
    url: Result<Option<Seq<char>>, Seq<char>>,
    current: Seq<char>,
) -> Option<(Seq<char>, Seq<char>)> {
    match (tag, url) {
        (Ok(Some(tag)), Ok(Some(url))) => if newer_spec(trim_start_char(tag, 'v'), current) {
            Some((tag, url))
        } else {
            None
        },
        _ => None,
    }
}

/// What a GitHub "latest release" response offers against `current`.
pub open spec fn release_offer(body: Seq<char>, current: Seq<char>) -> Option<
    (Seq<char>, Seq<char>),
> {
    offer_from(json_string_at(body, tag_path()), json_string_at(body, url_path()), current)
}

/// Strips every leading `c` from `s`.
pub fn trim_start_matches_char(s: &str, c: char) -> (r: String)
    ensures
        r@ == trim_start_char(s@, c),
{
    let n = s.unicode_len();
    let mut i: usize = 0;
    assert(s@.subrange(0, n as int) =~= s@);
    while i < n && s.get_char(i) == c
        invariant
            n == s@.len(),
            i <= n,
            trim_start_char(s@.subrange(i as int, n as int), c) == trim_start_char(s@, c),
        decreases n - i,
    {
        assert(s@.subrange(i as int, n as int).drop_first() =~= s@.subrange(i + 1, n as int));
        i = i + 1;
    }
    let mut r = String::new();
    let mut j: usize = i;
    while j < n
        invariant
            n == s@.len(),
            i <= j <= n,
            r@ == s@.subrange(i as int, j as int),
        decreases n - j,
    {
        push_char(&mut r, s.get_char(j));
        assert(s@.subrange(i as int, j + 1) =~= s@.subrange(i as int, j as int).push(
            s@[j as int],
        ));
        j = j + 1;
    }
    if i < n {
        assert(s@.subrange(i as int, n as int)[0] != c);
    }
    r
}

/// The update to offer from the lookups of a release's tag and page (see
/// `offer_from`).
pub fn offer_from_lookups(
    tag: Result<Option<String>, String>,
    url: Result<Option<String>, String>,
    current: &str,
) -> (r: Option<(String, String)>)
    ensures
        match offer_from(lookup_view(tag), lookup_view(url), current@) {
            Some((t0, u0)) => r matches Some((t, u)) && t@ == t0 && u@ == u0,
            None => r is None,
        },
{
    match (tag, url) {
        (Ok(Some(tag)), Ok(Some(url))) => {
            let remote = trim_start_matches_char(tag.as_str(), 'v');
            if is_newer(remote.as_str(), current) {
                Some((tag, url))
            } else {
                None
            }
        },
        _ => None,
    }
}

/// Reads the release tag and page URL from a GitHub "latest release" JSON
/// body and returns them when the release is newer than `current`.
pub fn release_update(body: &str, current: &str) -> (r: Option<(String, String)>)
    ensures
        match release_offer(body@, current@) {
            Some((tag, url)) => r matches Some((t, u)) && t@ == tag && u@ == url,
            None => r is None,
        },
{
    let tag = lookup_json_string(body, "/tag_name");
    let url = lookup_json_string(body, "/html_url");
    offer_from_lookups(tag, url, current)
}


proof fn lemma_split_dots_no_dot(x: Seq<char>)
    requires
        forall|k: int| 0 <= k < x.len() ==> x[k] != '.',
    ensures
        split_dots(x) == seq![x],
    decreases x.len(),
{
    if x.len() == 0 {
        assert(x =~= Seq::<char>::empty());
    } else {
        assert(x[x.len() - 1] != '.');
        lemma_split_dots_no_dot(x.drop_last());
        assert(x.drop_last().push(x.last()) =~= x);
        assert(seq![x.drop_last()].update(0, x.drop_last().push(x.last())) =~= seq![x]);
    }
}

proof fn lemma_split_dots_after_dot(p: Seq<char>, y: Seq<char>)
    requires
        forall|k: int| 0 <= k < y.len() ==> y[k] != '.',
    ensures
        split_dots(p + seq!['.'] + y) == split_dots(p).push(y),
    decreases y.len(),
{
    let s = p + seq!['.'] + y;
    if y.len() == 0 {
        assert(y =~= Seq::<char>::empty());
        assert(s.drop_last() =~= p);
        assert(s.last() == '.');
    } else {
        assert(y[y.len() - 1] != '.');
        lemma_split_dots_after_dot(p, y.drop_last());
        assert(s.drop_last() =~= p + seq!['.'] + y.drop_last());
        assert(s.last() == y.last());
        assert(y.drop_last().push(y.last()) =~= y);
        let prev = split_dots(p).push(y.drop_last());
        assert(prev.update(prev.len() - 1, prev.last().push(y.last())) =~= split_dots(p).push(y));
    }
}

/// The decimal rendering of a component parses back to it and holds no dot.
proof fn lemma_dec_component(n: u32)
    ensures
        parse_u32_spec(dec(n as nat)) == Some(n),
        forall|k: int| 0 <= k < dec(n as nat).len() ==> dec(n as nat)[k] != '.',
{
    lemma_dec_digits(n as nat);
    assert(is_digit(dec(n as nat)[0]));
    assert forall|k: int| 0 <= k < dec(n as nat).len() implies dec(n as nat)[k] != '.' by {
        assert(is_digit(dec(n as nat)[k]));
    }
}

/// The version string "a.b.c" of three decimal components.
pub open spec fn version_text(a: u32, b: u32, c: u32) -> Seq<char> {
    dec(a as nat) + seq!['.'] + dec(b as nat) + seq!['.'] + dec(c as nat)
}

/// A version "a.b.c" reads as the components a, b and c.
pub proof fn lemma_version_text_numbers(a: u32, b: u32, c: u32)
    ensures
        version_numbers(version_text(a, b, c)) == seq![a, b, c],
{
    let (x, y, z) = (dec(a as nat), dec(b as nat), dec(c as nat));
    lemma_dec_component(a);
    lemma_dec_component(b);
    lemma_dec_component(c);
    lemma_split_dots_no_dot(x);
    lemma_split_dots_after_dot(x, y);
    lemma_split_dots_after_dot(x + seq!['.'] + y, z);
    let pieces = seq![x, y, z];
    assert(split_dots(version_text(a, b, c)) =~= pieces);
    lemma_parsed_parts_push(seq![x, y], z);
    lemma_parsed_parts_push(seq![x], y);
    lemma_parsed_parts_push(Seq::<Seq<char>>::empty(), x);
    assert(seq![x, y].push(z) =~= pieces);
    assert(seq![x].push(y) =~= seq![x, y]);
    assert(Seq::<Seq<char>>::empty().push(x) =~= seq![x]);
    assert(parsed_parts(Seq::<Seq<char>>::empty()) =~= Seq::<u32>::empty());
    assert(Seq::<u32>::empty().push(a).push(b).push(c) =~= seq![a, b, c]);
}

/// Versions of three decimal components compare as numbers, component by
/// component from the first: "a.b.c" is newer than "d.e.f" exactly when
/// (a, b, c) comes after (d, e, f) in lexicographic order of their values
/// (so "1.10.0" is newer than "1.9.0").
pub proof fn law_newer_compares_numbers(a: u32, b: u32, c: u32, d: u32, e: u32, f: u32)
    ensures
        newer_spec(version_text(a, b, c), version_text(d, e, f)) <==> (a > d || (a == d && b > e)
            || (a == d && b == e && c > f)),
{
    lemma_version_text_numbers(a, b, c);
    lemma_version_text_numbers(d, e, f);
}

} // verus!
