use vstd::prelude::*;

verus! {

/// What a student record holds, as sequences of characters.
pub struct StudentView {
    pub id: Seq<char>,
    pub name: Seq<char>,
}

/// One row of the roster: an opaque identifier and a display name.
///
/// Identity is the row's position in the roster; two rows may carry the same
/// `id` and `name`.
#[derive(Debug, Clone, PartialEq, Eq)]
pub struct Student {
    pub id: String,
    pub name: String,
}

impl View for Student {
    type V = StudentView;

    open spec fn view(&self) -> StudentView {
        StudentView { id: self.id@, name: self.name@ }
    }
}

/// The views of a sequence of students, position by position.
pub open spec fn students_view(v: Seq<Student>) -> Seq<StudentView> {
    v.map_values(|s: Student| s@)
}

impl Student {
    pub fn new(id: String, name: String) -> (r: Student)
        ensures
            r.id == id,
            r.name == name,
    {
        Student { id, name }
    }

    /// An independent copy of this record.
    pub fn copied(&self) -> (r: Student)
        ensures
            r == *self,
    {
        Student { id: self.id.clone(), name: self.name.clone() }
    }
}

} // verus!
