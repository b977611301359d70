//! Glyph table entries and the filter predicate that decides which of them
//! the panel renders.

use vstd::prelude::*;
use crate::text::char_to_string;
use crate::text::contains_substr;
use crate::text::str_contains;

verus! {

/// One row of a glyph table: a Unicode codepoint, the character itself, and a
/// human-readable name. The tables are opaque inputs of the panel; entries
/// carry no invariant of their own.
#[derive(Debug)]
pub struct GlyphEntry {
    pub codepoint: u32,
    pub character: char,
    pub name: String,
}

/// The filter predicate: with filter text `filter`, an entry is rendered iff
/// the filter is empty, or it occurs in the entry's name, or it equals the
/// one-character string of the entry's character.
pub open spec fn entry_matches(filter: Seq<char>, e: GlyphEntry) -> bool {
    ||| filter.len() == 0
    ||| contains_substr(e.name@, filter)
    ||| filter == seq![e.character]
}

/// The subsequence of `table` whose entries pass the filter, in table order.
pub open spec fn visible_of(filter: Seq<char>, table: Seq<GlyphEntry>) -> Seq<GlyphEntry>
    decreases table.len(),
{
    if table.len() == 0 {
        Seq::empty()
    } else if entry_matches(filter, table.last()) {
        visible_of(filter, table.drop_last()).push(table.last())
    } else {
        visible_of(filter, table.drop_last())
    }
}

/// Extending a table by one entry extends its visible subsequence by that
/// entry exactly when the entry passes the filter.
pub proof fn lemma_visible_of_push(filter: Seq<char>, table: Seq<GlyphEntry>, e: GlyphEntry)
    ensures
        visible_of(filter, table.push(e)) == (if entry_matches(filter, e) {
            visible_of(filter, table).push(e)
        } else {
            visible_of(filter, table)
        }),
{
    assert(table.push(e).drop_last() =~= table);
    assert(table.push(e).last() == e);
}

/// With an empty filter, every entry of a table is visible, exactly once, in
/// table order.
pub proof fn lemma_empty_filter_shows_all(table: Seq<GlyphEntry>)
    ensures
        visible_of(Seq::<char>::empty(), table) == table,
    decreases table.len(),
{
    if table.len() == 0 {
        assert(visible_of(Seq::<char>::empty(), table) =~= table);
    } else {
        lemma_empty_filter_shows_all(table.drop_last());
        assert(visible_of(Seq::<char>::empty(), table) =~= table);
    }
}

/// The filter predicate is a pure function of the filter text and the entry:
/// any two calls that agree on those two values agree on the answer, whatever
/// else the panel's state holds.
pub proof fn lemma_entry_matches_pure(f1: Seq<char>, f2: Seq<char>, e1: GlyphEntry, e2: GlyphEntry)
    requires
        f1 == f2,
        e1 == e2,
    ensures
        entry_matches(f1, e1) == entry_matches(f2, e2),
{
}

/// Decides the filter predicate for one entry against the filter text held in
/// `filter`.
pub fn entry_passes(filter: &String, e: &GlyphEntry) -> (r: bool)
    ensures
        r == entry_matches(filter@, *e),
{
    if filter.as_str().is_empty() {
        true
    } else if str_contains(e.name.as_str(), filter.as_str()) {
        true
    } else {
        let single = char_to_string(e.character);
        *filter == single
    }
}

} // verus!
