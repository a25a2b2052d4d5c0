use vstd::prelude::*;

use rand::rngs::StdRng;

use crate::record::{Student, StudentView, students_view};
use crate::roster::ROLES;

verus! {

/// rand's standard generator, opaque: the draw is stated for every state of it.
#[verifier::external_type_specification]
#[verifier::external_body]
pub struct ExStdRng(rand::rngs::StdRng);

/// Relies on `rand::seq::index::sample`, through which `choose_multiple`
/// draws from a slice: exactly `amount` distinct indices below `length`, in
/// the order drawn. It panics only where `amount > length`.
#[verifier::external_body]
fn sample_indices(rng: &mut StdRng, length: usize, amount: usize) -> (r: Vec<usize>)
    requires
        amount <= length,
    ensures
        r@.len() == amount,
        forall|i: int| 0 <= i < amount ==> #[trigger] r@[i] < length,
        forall|i: int, j: int| 0 <= i < j < amount ==> r@[i] != r@[j],
{
    rand::seq::index::sample(rng, length, amount).into_vec()
}

/// What a selection holds: the two positions drawn and the records there.
pub struct SelectionView {
    pub first: int,
    pub second: int,
    pub primary: StudentView,
    pub backup: StudentView,
}

/// The primary and the backup duty-holder, with the roster positions they
/// were drawn from.
#[derive(Debug, Clone, PartialEq, Eq)]
pub struct Selection {
    pub first: usize,
    pub second: usize,
    pub primary: Student,
    pub backup: Student,
}

impl View for Selection {
    type V = SelectionView;

    open spec fn view(&self) -> SelectionView {
        SelectionView {
            first: self.first as int,
            second: self.second as int,
            primary: self.primary@,
            backup: self.backup@,
        }
    }
}

/// `s` takes its primary from one position of `roster` and its backup from
/// another.
pub open spec fn drawn_from(roster: Seq<StudentView>, s: SelectionView) -> bool {
    &&& 0 <= s.first < roster.len()
    &&& 0 <= s.second < roster.len()
    &&& s.first != s.second
    &&& s.primary == roster[s.first]
    &&& s.backup == roster[s.second]
}

/// The selection of the records at positions `first` (primary) and `second`
/// (backup), copied out of the roster.
pub fn select_at(roster: &Vec<Student>, first: usize, second: usize) -> (r: Selection)
    requires
        first < roster@.len(),
        second < roster@.len(),
        first != second,
    ensures
        r.first == first,
        r.second == second,
        drawn_from(students_view(roster@), r@),
{
    Selection {
        first,
        second,
        primary: roster[first].copied(),
        backup: roster[second].copied(),
    }
}

/// Draws two distinct positions of `roster` with `rng`, as `choose_multiple`
/// does, and assigns the first drawn the primary role and the second the
/// backup role.
pub fn select(roster: &Vec<Student>, rng: &mut StdRng) -> (r: Selection)
    requires
        roster@.len() >= ROLES,
    ensures
        drawn_from(students_view(roster@), r@),
{
    let picks = sample_indices(rng, roster.len(), ROLES);
    select_at(roster, picks[0], picks[1])
}

} // verus!
