//! Ukrainian translations of the interface strings: a partial table that
//! holds only the two entries below ("Plan" and "Pro"); every other key
//! falls back to English, then to the key itself.

use vstd::prelude::*;

verus! {

/// The Ukrainian table, in insertion order.
pub open spec fn table() -> Seq<(Seq<char>, Seq<char>)> {
    seq![
        ("Plan"@, "\u{041f}\u{043b}\u{0430}\u{043d}"@),
        ("Pro"@, "Pro"@),
    ]
}

/// The Ukrainian translation table.
pub fn strings() -> (r: Vec<(&'static str, &'static str)>)
    ensures
        super::entries_view(r@) == table(),
{
    let r = vec![
        ("Plan", "\u{041f}\u{043b}\u{0430}\u{043d}"),
        ("Pro", "Pro"),
    ];
    assert(super::entries_view(r@) =~= table());
    r
}

} // verus!
