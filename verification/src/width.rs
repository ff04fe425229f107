//! Display width of text in terminal columns, which differs from the
//! character count: pictographic icons occupy two columns.

use vstd::prelude::*;

verus! {

/// The number of terminal columns a string occupies, as the Unicode
/// east-asian-width rules define it. The exact value takes pages to state;
/// it depends on the characters alone.
pub uninterp spec fn display_width_of(s: Seq<char>) -> nat;

/// Relies on `unicode_width::UnicodeWidthStr::width`: the display width of
/// a string in terminal columns, a function of its characters alone.
#[verifier::external_body]
pub fn display_width(s: &str) -> (w: usize)
    ensures
        w == display_width_of(s@),
{
    unicode_width::UnicodeWidthStr::width(s)
}

/// Whether a configured icon occupies exactly the two columns every stat
/// line reserves for it.
pub fn is_two_columns(s: &str) -> (r: bool)
    ensures
        r == (display_width_of(s@) == 2),
{
    display_width(s) == 2
}

} // verus!
