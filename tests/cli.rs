use gourei_touban::report::{assign_duty, resolve_path};
use gourei_touban::roster::RosterError;
use rand::rngs::StdRng;
use rand::SeedableRng;

fn run(path: &str, csv: &str, seed: Option<u64>) -> Result<String, String> {
    let mut rng = match seed {
        Some(s) => StdRng::seed_from_u64(s),
        None => StdRng::from_entropy(),
    };
    assign_duty(path, csv.as_bytes(), &mut rng)
}

fn unavailable(path: &str) -> String {
    RosterError::SourceUnavailable {
        path: path.to_string(),
        cause: "No such file or directory (os error 2)".to_string(),
    }
    .message()
}

#[test]
fn test_fixed_seed_selection() {
    let csv_content = "id,name\n1,Alice\n2,Bob\n3,Charlie\n4,David";
    let path = resolve_path(None, Some("test_students_fixed.csv".to_string()));
    let out = run(&path, csv_content, Some(42)).unwrap();
    assert_eq!(out, "正担当: 1 Alice\n副担当: 3 Charlie\n");
}

#[test]
fn test_cli_file_argument() {
    let csv_content = "id,name\n10,Eve\n20,Frank";
    let path = resolve_path(None, Some("cli_specified.csv".to_string()));
    let out = run(&path, csv_content, None).unwrap();
    assert!(out.contains("正担当:"));
    assert!(out.contains("副担当:"));
    assert!(out.ends_with('\n'));
    assert_eq!(out.matches('\n').count(), 2);
}

#[test]
fn test_default_file_path() {
    let csv_content = "id,name\n100,Grace\n200,Heidi";
    let path = resolve_path(None, None);
    assert_eq!(path, "./students.csv");
    let out = run(&path, csv_content, None).unwrap();
    assert!(out.contains("正担当: 100 Grace") || out.contains("正担当: 200 Heidi"));
    assert!(out.contains("副担当: 100 Grace") || out.contains("副担当: 200 Heidi"));
}

#[test]
fn test_error_file_not_found() {
    let path = resolve_path(None, Some("non_existent_file.csv".to_string()));
    assert!(unavailable(&path).contains("Error: Could not open file"));
}

#[test]
fn test_error_default_file_not_found() {
    let path = resolve_path(None, None);
    assert!(unavailable(&path).contains("Error: Could not open file"));
}

#[test]
fn test_error_empty_file_header_only() {
    let csv_content = "id,name\n";
    let err = run("empty_header.csv", csv_content, None).unwrap_err();
    assert!(err.contains("Error: The student list"));
}

#[test]
fn test_error_empty_file_no_header() {
    let csv_content = "";
    let err = run("empty_no_header.csv", csv_content, None).unwrap_err();
    assert!(err.contains("Error: The student list"));
}

#[test]
fn test_error_one_student() {
    let csv_content = "id,name\n1,Alice";
    let err = run("one_student.csv", csv_content, None).unwrap_err();
    assert!(err.contains("Error: Not enough students"));
}

#[test]
fn test_error_csv_format_invalid_delimiter() {
    let csv_content = "id;name\n1;Alice\n2;Bob";
    let err = run("invalid_delimiter.csv", csv_content, None).unwrap_err();
    assert!(err.contains("Error: Failed to parse CSV file"));
}

#[test]
fn test_error_csv_format_wrong_columns() {
    let csv_content = "id,name,extra\n1,Alice,foo\n2,Bob,bar";
    let err = run("wrong_columns.csv", csv_content, None).unwrap_err();
    assert!(err.contains("Error: Failed to parse CSV file"));
}

#[test]
fn test_positional_file_argument() {
    let csv_content = "id,name\npos1,PositionalArgUser1\npos2,PositionalArgUser2";
    let path = resolve_path(Some("positional_test.csv".to_string()), None);
    assert_eq!(path, "positional_test.csv");
    let out = run(&path, csv_content, None).unwrap();
    assert!(
        out.contains("正担当: pos1 PositionalArgUser1")
            || out.contains("正担当: pos2 PositionalArgUser2")
    );
    assert!(
        out.contains("副担当: pos1 PositionalArgUser1")
            || out.contains("副担当: pos2 PositionalArgUser2")
    );
}
