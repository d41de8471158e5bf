//! Tests for the user-facing error type and its constructors.

use input_log_viewer::error::{from_io_error, from_parse_error, AppError};
use input_log_viewer::parser::ParseError;

#[test]
fn test_file_not_found_error() {
    let error = AppError::FileNotFound { path: "/path/to/file.ilj".to_string() };
    assert!(error.is_recoverable());
    assert!(error.supports_retry());
    assert_eq!(error.dialog_title(), "File Not Found");
    assert!(error.file_path().is_some());
}

#[test]
fn test_invalid_format_error() {
    let error = AppError::InvalidFormat {
        path: Some("/path/to/file.ilj".to_string()),
        message: "Invalid JSON".to_string(),
        line: Some(10),
        column: Some(5),
    };
    assert!(error.is_recoverable());
    assert!(!error.supports_retry());
    assert_eq!(error.dialog_title(), "Invalid File Format");
    let details = error.detailed_info();
    assert!(details.contains("Line: 10"));
    assert!(details.contains("Column: 5"));
}

#[test]
fn test_unsupported_version_error() {
    let error = AppError::UnsupportedVersion { path: None, found: 99, supported: 1 };
    assert!(error.is_recoverable());
    assert!(!error.supports_retry());
    assert_eq!(error.dialog_title(), "Unsupported Version");
    assert!(error.brief_description().contains("99"));
}

#[test]
fn test_from_io_error_not_found() {
    let path = "/test/file.ilj".to_string();
    let io_error = std::io::Error::new(std::io::ErrorKind::NotFound, "file not found");
    let error = from_io_error(path.clone(), io_error);

    match error {
        AppError::FileNotFound { path: p } => assert_eq!(p, path),
        _ => panic!("Expected FileNotFound error"),
    }
}

#[test]
fn test_from_io_error_permission_denied() {
    let path = "/test/file.ilj".to_string();
    let io_error = std::io::Error::new(std::io::ErrorKind::PermissionDenied, "access denied");
    let error = from_io_error(path.clone(), io_error);

    match error {
        AppError::FileReadError { path: p, reason } => {
            assert_eq!(p, path);
            assert!(reason.contains("Permission"));
        }
        _ => panic!("Expected FileReadError error"),
    }
}

#[test]
fn test_from_parse_error_version() {
    let error = from_parse_error(
        Some("/f.ilj".to_string()),
        &ParseError::UnsupportedVersion { version: 7 },
    );
    match error {
        AppError::UnsupportedVersion { path, found, supported } => {
            assert_eq!(path.as_deref(), Some("/f.ilj"));
            assert_eq!(found, 7);
            assert_eq!(supported, 1);
        }
        _ => panic!("Expected UnsupportedVersion error"),
    }
}

#[test]
fn test_from_parse_error_json_syntax_position() {
    let error = from_parse_error(
        None,
        &ParseError::JsonSyntax { message: "bad token".to_string(), line: 3, column: 0 },
    );
    match error {
        AppError::InvalidFormat { message, line, column, .. } => {
            assert_eq!(message, "bad token");
            assert_eq!(line, Some(3));
            // A zero column means the position is unknown.
            assert_eq!(column, None);
        }
        _ => panic!("Expected InvalidFormat error"),
    }
}

#[test]
fn test_from_parse_error_count_mismatch_message() {
    let error = from_parse_error(
        None,
        &ParseError::EventCountMismatch { header_count: 5, actual_count: 1 },
    );
    match error {
        AppError::InvalidFormat { message, .. } => {
            assert_eq!(
                message,
                "Event count mismatch: header declares 5 events, but file contains 1"
            );
        }
        _ => panic!("Expected InvalidFormat error"),
    }
}

#[test]
fn test_unsupported_file_type_description() {
    let error = AppError::UnsupportedFileType {
        path: "/x/readme.txt".to_string(),
        expected: vec!["ilj".to_string(), "ilb".to_string()],
    };
    assert_eq!(
        error.brief_description(),
        "Please use a file with one of these extensions: ilj, ilb"
    );
}
