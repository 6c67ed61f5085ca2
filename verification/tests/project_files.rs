use emstudio::project::{check_parsed_version, check_project_json, FileError};

#[test]
fn project_text_with_a_supported_version_is_accepted() {
    assert!(check_project_json(r#"{"metadata":{"version":"1.2.0"},"designs":[]}"#).is_ok());
    assert!(check_project_json(r#"{"metadata":{"version":"1.0.0","author":"a"}}"#).is_ok());
}

#[test]
fn project_text_without_a_version_reads_as_one_zero_zero() {
    assert!(check_project_json(r#"{"designs":[]}"#).is_ok());
    assert!(check_project_json(r#"{"metadata":{}}"#).is_ok());
    assert!(check_project_json(r#"{"metadata":{"version":3}}"#).is_ok());
    assert!(check_project_json("[]").is_ok());
}

#[test]
fn project_text_with_another_version_is_refused() {
    match check_project_json(r#"{"metadata":{"version":"2.0.0"}}"#) {
        Err(FileError::UnsupportedVersion(v)) => assert_eq!(v, "2.0.0"),
        other => panic!("{:?}", other),
    }
    match check_project_json(r#"{"metadata":{"version":"10.1"}}"#) {
        Err(FileError::UnsupportedVersion(v)) => assert_eq!(v, "10.1"),
        other => panic!("{:?}", other),
    }
}

#[test]
fn text_that_is_not_json_is_a_parse_error() {
    let expected = serde_json::from_str::<serde_json::Value>("not json").unwrap_err().to_string();
    match check_project_json("not json") {
        Err(FileError::JsonParse(m)) => assert_eq!(m, expected),
        other => panic!("{:?}", other),
    }
}

#[test]
fn parsed_versions_decide_alone() {
    assert!(check_parsed_version(Ok(None)).is_ok());
    assert!(check_parsed_version(Ok(Some("1.9".to_string()))).is_ok());
    match check_parsed_version(Ok(Some("0.9".to_string()))) {
        Err(FileError::UnsupportedVersion(v)) => assert_eq!(v, "0.9"),
        other => panic!("{:?}", other),
    }
    match check_parsed_version(Err("bad".to_string())) {
        Err(FileError::JsonParse(m)) => assert_eq!(m, "bad"),
        other => panic!("{:?}", other),
    }
}
