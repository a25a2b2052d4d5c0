use vstd::prelude::*;

use crate::record::{Student, StudentView, students_view};

verus! {

/// How many roles are filled from one roster, hence the fewest rows it needs.
pub const ROLES: usize = 2;

/// csv's error, carried opaque until it is turned into a message's cause.
#[verifier::external_type_specification]
#[verifier::external_body]
pub struct ExCsvError(csv::Error);

/// The records that csv's reader finds in `data` (comma-delimited, every
/// record as wide as the first, the first one not treated as a header), or
/// `None` where the reader reports an error.
pub uninterp spec fn csv_records(data: Seq<u8>) -> Option<Seq<Seq<Seq<char>>>>;

/// The fields of each record, as sequences of characters.
pub open spec fn table_view(t: Seq<Vec<String>>) -> Seq<Seq<Seq<char>>> {
    t.map_values(|row: Vec<String>| row@.map_values(|f: String| f@))
}

/// Relies on csv's `ReaderBuilder` and `Reader::deserialize`: reading `data`
/// with the comma delimiter, no header handling and no flexible widths yields
/// the records or the first error, depending on the bytes alone.
#[verifier::external_body]
fn read_csv(data: &[u8]) -> (r: Result<Vec<Vec<String>>, csv::Error>)
    ensures
        match r {
            Ok(t) => csv_records(data@) == Some(table_view(t@)),
            Err(_) => csv_records(data@) is None,
        },
{
    let mut rdr = csv::ReaderBuilder::new().has_headers(false).flexible(false).from_reader(data);
    rdr.deserialize().collect()
}

/// The header names exactly the two columns `id` and `name`, in either order.
pub open spec fn header_ok(h: Seq<Seq<char>>) -> bool {
    &&& h.len() == 2
    &&& (h[0] == "id"@ && h[1] == "name"@) || (h[0] == "name"@ && h[1] == "id"@)
}

/// The column of `id` under a well-formed header; `name` is the other one.
pub open spec fn id_column(h: Seq<Seq<char>>) -> int {
    if h[0] == "id"@ { 0 } else { 1 }
}

/// Every record after the header has exactly two fields.
pub open spec fn rows_fit(t: Seq<Seq<Seq<char>>>) -> bool {
    forall|i: int| 1 <= i < t.len() ==> #[trigger] t[i].len() == 2
}

/// The student of data row `i` (record `i + 1`) of a well-formed table.
pub open spec fn row_student(t: Seq<Seq<Seq<char>>>, i: int) -> StudentView {
    StudentView { id: t[i + 1][id_column(t[0])], name: t[i + 1][1 - id_column(t[0])] }
}

/// The roster that a table of records describes, or `None` where it breaks
/// the schema. A table without any record, not even a header, is an empty
/// roster.
pub open spec fn table_roster(t: Seq<Seq<Seq<char>>>) -> Option<Seq<StudentView>> {
    if t.len() == 0 {
        Some(Seq::empty())
    } else if header_ok(t[0]) && rows_fit(t) {
        Some(Seq::new((t.len() - 1) as nat, |i: int| row_student(t, i)))
    } else {
        None
    }
}

/// Why a table that csv accepted breaks the schema.
pub open spec fn schema_fault(t: Seq<Seq<Seq<char>>>) -> Seq<char> {
    if !header_ok(t[0]) {
        "the header must name exactly the columns id and name"@
    } else {
        "every record must have exactly two fields"@
    }
}

/// The roster that `data` holds, or `None` where it is not a well-formed table.
pub open spec fn parsed_roster(data: Seq<u8>) -> Option<Seq<StudentView>> {
    match csv_records(data) {
        Some(t) => table_roster(t),
        None => None,
    }
}

/// Why a roster cannot be used. Each variant carries the source's path and
/// what its message needs.
#[derive(Debug, Clone, PartialEq, Eq)]
pub enum RosterError {
    /// The source could not be opened or read.
    SourceUnavailable { path: String, cause: String },
    /// The source is not a table of exactly the columns `id` and `name`.
    MalformedInput { path: String, cause: String },
    /// The table holds no data row.
    EmptyRoster { path: String },
    /// The table holds fewer data rows than there are roles.
    InsufficientRoster { path: String, found: usize },
}

impl RosterError {
    pub open spec fn path_view(&self) -> Seq<char> {
        match self {
            RosterError::SourceUnavailable { path, .. } => path@,
            RosterError::MalformedInput { path, .. } => path@,
            RosterError::EmptyRoster { path } => path@,
            RosterError::InsufficientRoster { path, .. } => path@,
        }
    }
}

/// `e` is the error that checking the records `t` from `path` reports:
/// malformed where `t` breaks the schema, empty where it has no data row,
/// insufficient where it has fewer than `ROLES`.
pub open spec fn table_error(path: Seq<char>, t: Seq<Seq<Seq<char>>>, e: RosterError) -> bool {
    &&& e.path_view() == path
    &&& match e {
        RosterError::MalformedInput { cause, .. } => {
            &&& table_roster(t) is None
            &&& cause@ == schema_fault(t)
        },
        RosterError::EmptyRoster { .. } => table_roster(t) == Some(Seq::<StudentView>::empty()),
        RosterError::InsufficientRoster { found, .. } => {
            &&& table_roster(t) is Some
            &&& found == table_roster(t)->Some_0.len()
            &&& 0 < found < ROLES
        },
        RosterError::SourceUnavailable { .. } => false,
    }
}

/// `e` is the error that loading `data` from `path` reports: malformed where
/// csv refuses `data`, else as `table_error` says of its records.
pub open spec fn load_error(path: Seq<char>, data: Seq<u8>, e: RosterError) -> bool {
    match csv_records(data) {
        Some(t) => table_error(path, t, e),
        None => e is MalformedInput && e.path_view() == path,
    }
}

/// The positions of the `id` and `name` columns, where the header names
/// exactly those two.
fn header_columns(h: &Vec<String>) -> (r: Option<(usize, usize)>)
    ensures
        r is Some <==> header_ok(h@.map_values(|f: String| f@)),
        r is Some ==> {
            let hv = h@.map_values(|f: String| f@);
            r->Some_0 == (id_column(hv) as usize, (1 - id_column(hv)) as usize)
        },
{
    let ghost hv = h@.map_values(|f: String| f@);
    proof {
        reveal_strlit("id");
        reveal_strlit("name");
    }
    if h.len() != 2 {
        return None;
    }
    let id = String::from_str("id");
    let name = String::from_str("name");
    assert(hv[0] == h@[0]@ && hv[1] == h@[1]@);
    if h[0] == id && h[1] == name {
        Some((0, 1))
    } else if h[0] == name && h[1] == id {
        assert(hv[0] != "id"@);
        Some((1, 0))
    } else {
        None
    }
}

/// The students of a table of records, or the schema's reason to refuse it.
fn students_of_table(t: &Vec<Vec<String>>) -> (r: Result<Vec<Student>, String>)
    ensures
        match r {
            Ok(v) => table_roster(table_view(t@)) == Some(students_view(v@)),
            Err(cause) => {
                &&& table_roster(table_view(t@)) is None
                &&& cause@ == schema_fault(table_view(t@))
            },
        },
{
    let ghost tv = table_view(t@);
    if t.len() == 0 {
        let v: Vec<Student> = Vec::new();
        assert(students_view(v@) =~= Seq::<StudentView>::empty());
        return Ok(v);
    }
    assert(tv[0] == t@[0]@.map_values(|f: String| f@));
    let cols = header_columns(&t[0]);
    if cols.is_none() {
        return Err(String::from_str("the header must name exactly the columns id and name"));
    }
    let (id_at, name_at) = cols.unwrap();
    let mut v: Vec<Student> = Vec::new();
    let mut i: usize = 1;
    while i < t.len()
        invariant
            1 <= i <= t.len(),
            tv == table_view(t@),
            header_ok(tv[0]),
            id_at == id_column(tv[0]),
            name_at == 1 - id_column(tv[0]),
            v@.len() == i - 1,
            forall|k: int| 1 <= k < i ==> #[trigger] tv[k].len() == 2,
            forall|k: int| 0 <= k < i - 1 ==> #[trigger] v@[k]@ == row_student(tv, k),
        decreases t.len() - i,
    {
        let row = &t[i];
        assert(tv[i as int] == row@.map_values(|f: String| f@));
        if row.len() != 2 {
            assert(tv[i as int].len() != 2);
            return Err(String::from_str("every record must have exactly two fields"));
        }
        let s = Student::new(row[id_at].clone(), row[name_at].clone());
        v.push(s);
        i = i + 1;
    }
    assert(students_view(v@) =~= Seq::new((tv.len() - 1) as nat, |k: int| row_student(tv, k)));
    Ok(v)
}

/// Checks the records `records` (the header first) against the schema and
/// the roster's size, `path` naming their source in errors.
///
/// Succeeds exactly where the records form a well-formed table with at least
/// `ROLES` data rows, and returns those rows' students in order.
pub fn roster_from_records(path: &str, records: &Vec<Vec<String>>) -> (r: Result<Vec<Student>, RosterError>)
    ensures
        match r {
            Ok(v) => {
                &&& table_roster(table_view(records@)) == Some(students_view(v@))
                &&& v@.len() >= ROLES
            },
            Err(e) => table_error(path@, table_view(records@), e),
        },
{
    let roster = match students_of_table(records) {
        Ok(v) => v,
        Err(cause) => {
            return Err(RosterError::MalformedInput { path: String::from_str(path), cause });
        },
    };
    if roster.len() == 0 {
        assert(students_view(roster@) =~= Seq::<StudentView>::empty());
        return Err(RosterError::EmptyRoster { path: String::from_str(path) });
    }
    if roster.len() < ROLES {
        return Err(RosterError::InsufficientRoster { path: String::from_str(path), found: roster.len() });
    }
    Ok(roster)
}

/// Reads the roster that `data` holds, `path` naming its source in errors.
///
/// Succeeds exactly where `data` is a well-formed table with at least `ROLES`
/// data rows, and returns them in order.
pub fn load_roster(path: &str, data: &[u8]) -> (r: Result<Vec<Student>, RosterError>)
    ensures
        match r {
            Ok(v) => {
                &&& parsed_roster(data@) == Some(students_view(v@))
                &&& v@.len() >= ROLES
            },
            Err(e) => load_error(path@, data@, e),
        },
{
    match read_csv(data) {
        Ok(records) => roster_from_records(path, &records),
        Err(e) => Err(RosterError::MalformedInput { path: String::from_str(path), cause: e.to_string() }),
    }
}

} // verus!
