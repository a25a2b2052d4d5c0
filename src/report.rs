use vstd::prelude::*;

use rand::rngs::StdRng;

use crate::roster::{RosterError, load_error, load_roster, parsed_roster};
use crate::select::{SelectionView, Selection, drawn_from, select};

verus! {

/// The decimal digit `d`.
pub open spec fn digit(d: nat) -> char {
    "0123456789"@[d as int]
}

/// `n` written in decimal, without sign or leading zeros.
pub open spec fn decimal(n: nat) -> Seq<char>
    decreases n,
{
    if n < 10 {
        seq![digit(n)]
    } else {
        decimal(n / 10) + seq![digit(n % 10)]
    }
}

/// Appends `n` in decimal to `out`.
fn append_decimal(out: &mut String, n: usize)
    ensures
        final(out)@ == old(out)@ + decimal(n as nat),
    decreases n,
{
    if n >= 10 {
        append_decimal(out, n / 10);
    }
    let digits = "0123456789";
    proof {
        reveal_strlit("0123456789");
    }
    let d = n % 10;
    let s = digits.substring_ascii(d, d + 1);
    assert(s@ =~= seq![digit(d as nat)]);
    out.append(s);
}

/// The message that reports `e`, each beginning with `Error:`.
pub open spec fn error_message(e: RosterError) -> Seq<char> {
    match e {
        RosterError::SourceUnavailable { path, cause } => "Error: Could not open file '"@ + path@
            + "': "@ + cause@,
        RosterError::MalformedInput { path, cause } => "Error: Failed to parse CSV file '"@ + path@
            + "': "@ + cause@,
        RosterError::EmptyRoster { path } => "Error: The student list in '"@ + path@
            + "' is empty."@,
        RosterError::InsufficientRoster { path, found } => "Error: Not enough students in '"@
            + path@ + "' to select two. Found "@ + decimal(found as nat) + "."@,
    }
}

impl RosterError {
    /// The human-readable report of this error.
    pub fn message(&self) -> (r: String)
        ensures
            r@ == error_message(*self),
    {
        match self {
            RosterError::SourceUnavailable { path, cause } => {
                let mut m = String::from_str("Error: Could not open file '");
                m.append(path.as_str());
                m.append("': ");
                m.append(cause.as_str());
                m
            },
            RosterError::MalformedInput { path, cause } => {
                let mut m = String::from_str("Error: Failed to parse CSV file '");
                m.append(path.as_str());
                m.append("': ");
                m.append(cause.as_str());
                m
            },
            RosterError::EmptyRoster { path } => {
                let mut m = String::from_str("Error: The student list in '");
                m.append(path.as_str());
                m.append("' is empty.");
                m
            },
            RosterError::InsufficientRoster { path, found } => {
                let mut m = String::from_str("Error: Not enough students in '");
                m.append(path.as_str());
                m.append("' to select two. Found ");
                append_decimal(&mut m, *found);
                m.append(".");
                m
            },
        }
    }
}

/// The line that names the holder of one role: `<label>: <id> <name>`.
pub open spec fn duty_line(label: Seq<char>, s: crate::record::StudentView) -> Seq<char> {
    label + ": "@ + s.id + " "@ + s.name + "\n"@
}

/// The two lines that announce a selection, primary first.
pub open spec fn duty_lines(s: SelectionView) -> Seq<char> {
    duty_line("正担当"@, s.primary) + duty_line("副担当"@, s.backup)
}

fn append_duty_line(out: &mut String, label: &str, s: &crate::record::Student)
    ensures
        final(out)@ == old(out)@ + duty_line(label@, s@),
{
    out.append(label);
    out.append(": ");
    out.append(s.id.as_str());
    out.append(" ");
    out.append(s.name.as_str());
    out.append("\n");
}

impl Selection {
    /// The two lines that announce this selection.
    pub fn render(&self) -> (r: String)
        ensures
            r@ == duty_lines(self@),
    {
        let mut out = String::new();
        append_duty_line(&mut out, "正担当", &self.primary);
        append_duty_line(&mut out, "副担当", &self.backup);
        out
    }
}

/// Loads the roster that `data` holds, draws its primary and backup with
/// `rng`, and returns the two announcing lines; or the message of the error
/// that loading reports, `path` naming the source.
pub fn assign_duty(path: &str, data: &[u8], rng: &mut StdRng) -> (r: Result<String, String>)
    ensures
        match r {
            Ok(text) => exists|s: SelectionView|
                {
                    &&& parsed_roster(data@) is Some
                    &&& drawn_from(parsed_roster(data@)->Some_0, s)
                    &&& text@ == duty_lines(s)
                },
            Err(msg) => exists|e: RosterError| load_error(path@, data@, e) && msg@ == error_message(e),
        },
{
    match load_roster(path, data) {
        Ok(roster) => {
            let chosen = select(&roster, rng);
            Ok(chosen.render())
        },
        Err(e) => Err(e.message()),
    }
}

/// The roster file used when no path is given.
pub const DEFAULT_ROSTER_PATH: &'static str = "./students.csv";

/// The roster path to read: the positional argument, else the `--file`
/// option, else `DEFAULT_ROSTER_PATH`.
pub fn resolve_path(positional: Option<String>, file: Option<String>) -> (r: String)
    ensures
        r@ == match positional {
            Some(p) => p@,
            None => match file {
                Some(f) => f@,
                None => DEFAULT_ROSTER_PATH@,
            },
        },
{
    match positional {
        Some(p) => p,
        None => match file {
            Some(f) => f,
            None => String::from_str(DEFAULT_ROSTER_PATH),
        },
    }
}

} // verus!
