//! Properties that hold of every roster and every draw.
use vstd::prelude::*;

use crate::record::StudentView;
use crate::roster::{RosterError, table_error, table_roster};
use crate::select::{SelectionView, drawn_from};

verus! {

/// Once the two positions are drawn, the selection is fixed: two selections
/// drawn from the same roster at the same positions agree, records and roles.
pub proof fn selection_fixed_by_positions(roster: Seq<StudentView>, a: SelectionView, b: SelectionView)
    requires
        drawn_from(roster, a),
        drawn_from(roster, b),
        a.first == b.first,
        a.second == b.second,
    ensures
        a == b,
{
}

/// No ordered pair of distinct positions is ruled out: for every such pair
/// there is a selection taking its primary from the first and its backup from
/// the second, so every record can hold either role.
pub proof fn every_pair_can_be_drawn(roster: Seq<StudentView>, i: int, j: int)
    requires
        0 <= i < roster.len(),
        0 <= j < roster.len(),
        i != j,
    ensures
        exists|s: SelectionView| drawn_from(roster, s) && s.first == i && s.second == j,
{
    let s = SelectionView { first: i, second: j, primary: roster[i], backup: roster[j] };
    assert(drawn_from(roster, s));
}

/// A roster without data rows is reported as empty and one with a single row
/// as insufficient, finding one: the two are never confused.
pub proof fn empty_and_short_rosters_differ(path: Seq<char>, t: Seq<Seq<Seq<char>>>, e: RosterError)
    requires
        table_error(path, t, e),
    ensures
        table_roster(t) == Some(Seq::<StudentView>::empty()) ==> e is EmptyRoster,
        table_roster(t) is Some && table_roster(t)->Some_0.len() == 1 ==> (e matches RosterError::InsufficientRoster { found, .. } && found == 1),
{
}

/// A header with a column besides `id` and `name`, or without one of them,
/// and a data row with more or fewer than two fields, are refused, however
/// well-formed the rest of the table is; the error reported is then always
/// `MalformedInput`.
pub proof fn schema_is_strict(path: Seq<char>, t: Seq<Seq<Seq<char>>>, e: RosterError)
    requires
        table_error(path, t, e),
        t.len() > 0,
        t[0].len() != 2 || !t[0].contains("id"@) || !t[0].contains("name"@)
            || exists|i: int| 1 <= i < t.len() && #[trigger] t[i].len() != 2,
    ensures
        table_roster(t) is None,
        e is MalformedInput,
{
    if t[0].len() == 2 && t[0].contains("id"@) && t[0].contains("name"@) {
        if crate::roster::header_ok(t[0]) {
            assert(!crate::roster::rows_fit(t));
        }
    } else {
        if crate::roster::header_ok(t[0]) {
            assert(t[0][0] == "id"@ || t[0][1] == "id"@);
            assert(t[0].contains("id"@));
            assert(t[0].contains("name"@));
        }
    }
}

} // verus!
