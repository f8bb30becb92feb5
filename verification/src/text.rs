//! Labels: the text of a row's first cell, trimmed and in lower case.

use vstd::prelude::*;

verus! {

/// Whether `c` counts as whitespace: whether it has the Unicode property
/// `White_Space`, by which `str::trim` decides what to remove.
pub uninterp spec fn white_space(c: char) -> bool;

/// The lower-case equivalent of `text`, as `str::to_lowercase` gives it.
pub uninterp spec fn lowercased(text: Seq<char>) -> Seq<char>;

/// `text` without its leading and trailing whitespace.
pub open spec fn trimmed(text: Seq<char>) -> Seq<char>
    decreases text.len(),
{
    if text.len() > 0 && white_space(text.first()) {
        trimmed(text.drop_first())
    } else if text.len() > 0 && white_space(text.last()) {
        trimmed(text.drop_last())
    } else {
        text
    }
}

/// The label that a first cell with the given text gives its row.
pub open spec fn label_of(text: Seq<char>) -> Seq<char> {
    lowercased(trimmed(text))
}

/// Whether every character of `text` is whitespace.
pub open spec fn all_white_space(text: Seq<char>) -> bool {
    forall|i: int| 0 <= i < text.len() ==> white_space(#[trigger] text[i])
}

/// Calls `str::trim`, which returns the slice of `text` that is left when the
/// leading and the trailing whitespace are removed, whitespace being the
/// characters with the Unicode property `White_Space`: what is left neither
/// begins nor ends with such a character. The second clause says no more than
/// the first does: [`trimmed_has_no_outer_space`] proves it of [`trimmed`].
#[verifier::external_body]
fn trim(text: &str) -> (core: &str)
    ensures
        core@ == trimmed(text@),
        core@.len() > 0 ==> !white_space(core@.first()) && !white_space(core@.last()),
{
    text.trim()
}

/// Calls `str::to_lowercase`, which returns the lower-case equivalent of
/// `text` as a new string. Nothing is claimed of it but that it depends on
/// the characters of `text` alone.
#[verifier::external_body]
fn to_lowercase(text: &str) -> (lower: String)
    ensures
        lower@ == lowercased(text@),
{
    text.to_lowercase()
}

/// The label of a row whose first cell holds `text`.
pub fn row_label(text: &str) -> (label: String)
    ensures
        label@ == label_of(text@),
{
    to_lowercase(trim(text))
}

/// A trimmed text neither begins nor ends with whitespace.
pub proof fn trimmed_has_no_outer_space(text: Seq<char>)
    ensures
        trimmed(text).len() > 0 ==> !white_space(trimmed(text).first()) && !white_space(
            trimmed(text).last(),
        ),
    decreases text.len(),
{
    if text.len() > 0 && white_space(text.first()) {
        trimmed_has_no_outer_space(text.drop_first());
    } else if text.len() > 0 && white_space(text.last()) {
        trimmed_has_no_outer_space(text.drop_last());
    }
}

/// Whitespace in front of a text does not change what is left after trimming.
pub proof fn trimmed_ignores_leading(space: Seq<char>, text: Seq<char>)
    requires
        all_white_space(space),
    ensures
        trimmed(space + text) == trimmed(text),
    decreases space.len(),
{
    if space.len() > 0 {
        assert((space + text).drop_first() =~= space.drop_first() + text);
        trimmed_ignores_leading(space.drop_first(), text);
    }
}

/// Whitespace behind a text does not change what is left after trimming.
pub proof fn trimmed_ignores_trailing(text: Seq<char>, space: Seq<char>)
    requires
        all_white_space(space),
    ensures
        trimmed(text + space) == trimmed(text),
    decreases text.len() + space.len(),
{
    if space.len() > 0 {
        if text.len() == 0 {
            trimmed_ignores_leading(space, text);
        } else if white_space(text.first()) {
            assert((text + space).drop_first() =~= text.drop_first() + space);
            trimmed_ignores_trailing(text.drop_first(), space);
        } else {
            assert((text + space).drop_last() =~= text + space.drop_last());
            trimmed_ignores_trailing(text, space.drop_last());
        }
    }
}

/// A first cell's label does not depend on the whitespace around its text:
/// whatever whitespace stands before and behind `text`, the label is that of
/// `text` alone.
pub proof fn label_ignores_outer_space(lead: Seq<char>, text: Seq<char>, trail: Seq<char>)
    requires
        all_white_space(lead),
        all_white_space(trail),
    ensures
        label_of(lead + text + trail) == label_of(text),
{
    trimmed_ignores_trailing(lead + text, trail);
    trimmed_ignores_leading(lead, text);
}

} // verus!
