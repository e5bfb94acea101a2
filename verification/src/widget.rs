//! The mini floating widget: the text and colour it shows.

use vstd::prelude::*;
use crate::colors::{ColorRef, rgb, rgb_spec};
use crate::text::{dec, push_dec, push_str, to_string};
use crate::usage::{Centis, reaches, round_percent, rounded_percent};

verus! {

/// The widget's label and background for the highest utilization: the
/// rounded percentage on red (from 80%), amber (from 50%) or green, or a
/// dash on grey without data.
pub open spec fn widget_face_spec(max_util: Option<Centis>) -> (Seq<char>, u32) {
    match max_util {
        Some(u) => (
            dec(rounded_percent(u as int) as nat) + "%"@,
            if reaches(u as int, 80) {
                rgb_spec(210, 15, 57)
            } else if reaches(u as int, 50) {
                rgb_spec(223, 142, 29)
            } else {
                rgb_spec(64, 160, 43)
            },
        ),
        None => ("\u{2014}"@, rgb_spec(128, 128, 128)),
    }
}

/// The widget's label and background colour.
pub fn widget_face(max_util: Option<Centis>) -> (r: (String, ColorRef))
    ensures
        r.0@ == widget_face_spec(max_util).0,
        r.1 == widget_face_spec(max_util).1,
{
    match max_util {
        Some(u) => {
            let mut text = String::new();
            push_dec(&mut text, round_percent(u) as u64);
            push_str(&mut text, "%");
            let color = if u >= 8000 {
                rgb(210, 15, 57)
            } else if u >= 5000 {
                rgb(223, 142, 29)
            } else {
                rgb(64, 160, 43)
            };
            assert(text@ =~= widget_face_spec(max_util).0);
            (text, color)
        },
        None => (to_string("\u{2014}"), rgb(128, 128, 128)),
    }
}

} // verus!
