//! Application error types for user-facing error handling.
//!
//! These errors are designed to provide clear, actionable information in an
//! error dialog: a title, a brief description, and detailed technical text.
//! File locations are carried as plain path strings.

use crate::parser::ParseError;
use crate::text::{join_strings, spec_decimal, spec_join, u64_to_dec};
use vstd::prelude::*;
use vstd::string::StringExecFns;

verus! {

/// Application-level errors that can be displayed to users.
#[derive(Debug, Clone)]
pub enum AppError {
    /// File was not found at the specified path.
    FileNotFound { path: String },
    /// File exists but cannot be read (permissions, locked, and so on).
    FileReadError { path: String, reason: String },
    /// File format is invalid or corrupted.  Line and column are 1-indexed
    /// positions, present when known (for JSON input).
    InvalidFormat { path: Option<String>, message: String, line: Option<usize>, column: Option<usize> },
    /// File version is not supported.
    UnsupportedVersion { path: Option<String>, found: u32, supported: u32 },
    /// File extension is not recognized.
    UnsupportedFileType { path: String, expected: Vec<String> },
    /// Generic I/O error.
    IoError { path: Option<String>, reason: String },
    /// Settings could not be saved.
    SettingsSaveError { reason: String },
    /// Settings could not be loaded.
    SettingsLoadError { reason: String },
}

/// The dialog title for each error.
pub open spec fn spec_dialog_title(e: AppError) -> Seq<char> {
    match e {
        AppError::FileNotFound { .. } => "File Not Found"@,
        AppError::FileReadError { .. } => "Cannot Read File"@,
        AppError::InvalidFormat { .. } => "Invalid File Format"@,
        AppError::UnsupportedVersion { .. } => "Unsupported Version"@,
        AppError::UnsupportedFileType { .. } => "Unsupported File Type"@,
        AppError::IoError { .. } => "I/O Error"@,
        AppError::SettingsSaveError { .. } => "Settings Error"@,
        AppError::SettingsLoadError { .. } => "Settings Error"@,
    }
}

/// The brief, user-facing description for each error.
pub open spec fn spec_brief_description(e: AppError) -> Seq<char> {
    match e {
        AppError::FileNotFound { path } => "The file '"@ + path@ + "' could not be found."@,
        AppError::FileReadError { path, .. } => "Could not read the file '"@ + path@ + "'."@,
        AppError::InvalidFormat { message, .. } => message@,
        AppError::UnsupportedVersion { found, supported, .. } => "File version "@ + spec_decimal(
            found as int,
        ) + " is not supported. This viewer supports version "@ + spec_decimal(supported as int)
            + "."@,
        AppError::UnsupportedFileType { expected, .. } => {
            "Please use a file with one of these extensions: "@ + spec_join(
                expected@.map_values(|s: String| s@),
                ", "@,
            )
        },
        AppError::IoError { reason, .. } => reason@,
        AppError::SettingsSaveError { reason } => "Could not save settings: "@ + reason@,
        AppError::SettingsLoadError { reason } => "Could not load settings: "@ + reason@,
    }
}

/// The extra technical lines appended to the detailed description, one
/// "\nLabel: value" fragment per known detail.
pub open spec fn spec_detail_lines(e: AppError) -> Seq<char> {
    match e {
        AppError::FileNotFound { path } => "\nFull Path: "@ + path@,
        AppError::FileReadError { path, reason } => "\nFull Path: "@ + path@ + "\nReason: "@
            + reason@,
        AppError::InvalidFormat { path, message, line, column } => {
            (match path {
                Some(p) => "\nFile: "@ + p@,
                None => Seq::<char>::empty(),
            }) + (match line {
                Some(l) => "\nLine: "@ + spec_decimal(l as int),
                None => Seq::<char>::empty(),
            }) + (match column {
                Some(c) => "\nColumn: "@ + spec_decimal(c as int),
                None => Seq::<char>::empty(),
            }) + "\nDetails: "@ + message@
        },
        AppError::UnsupportedVersion { path, found, supported } => {
            (match path {
                Some(p) => "\nFile: "@ + p@,
                None => Seq::<char>::empty(),
            }) + "\nFound Version: "@ + spec_decimal(found as int) + "\nSupported Version: "@
                + spec_decimal(supported as int)
        },
        AppError::UnsupportedFileType { path, expected } => "\nFile: "@ + path@
            + "\nSupported Extensions: "@ + spec_join(expected@.map_values(|s: String| s@), ", "@),
        AppError::IoError { path, reason } => {
            (match path {
                Some(p) => "\nPath: "@ + p@,
                None => Seq::<char>::empty(),
            }) + "\nDetails: "@ + reason@
        },
        AppError::SettingsSaveError { reason } => "\nDetails: "@ + reason@,
        AppError::SettingsLoadError { reason } => "\nDetails: "@ + reason@,
    }
}

impl AppError {
    /// Whether the user can dismiss the error and continue using the
    /// application.  Every error of this set is recoverable.
    pub fn is_recoverable(&self) -> (r: bool)
        ensures
            r,
    {
        true
    }

    /// Whether retrying the failed operation can help: true for the
    /// file-access errors that name a concrete file.
    pub fn supports_retry(&self) -> (r: bool)
        ensures
            r == match *self {
                AppError::FileNotFound { .. } => true,
                AppError::FileReadError { .. } => true,
                AppError::IoError { path, .. } => path is Some,
                _ => false,
            },
    {
        match self {
            AppError::FileNotFound { .. } => true,
            AppError::FileReadError { .. } => true,
            AppError::IoError { path, .. } => path.is_some(),
            _ => false,
        }
    }

    /// The file path associated with this error, if any.
    pub fn file_path(&self) -> (r: Option<&String>)
        ensures
            match *self {
                AppError::FileNotFound { path } => r == Some(&path),
                AppError::FileReadError { path, .. } => r == Some(&path),
                AppError::UnsupportedFileType { path, .. } => r == Some(&path),
                AppError::InvalidFormat { path, .. } => (r is Some <==> path is Some) && (match r {
                    Some(p) => Some(*p) == path,
                    None => true,
                }),
                AppError::UnsupportedVersion { path, .. } => (r is Some <==> path is Some) && (
                match r {
                    Some(p) => Some(*p) == path,
                    None => true,
                }),
                AppError::IoError { path, .. } => (r is Some <==> path is Some) && (match r {
                    Some(p) => Some(*p) == path,
                    None => true,
                }),
                AppError::SettingsSaveError { .. } => r is None,
                AppError::SettingsLoadError { .. } => r is None,
            },
    {
        match self {
            AppError::FileNotFound { path } => Some(path),
            AppError::FileReadError { path, .. } => Some(path),
            AppError::InvalidFormat { path, .. } => path.as_ref(),
            AppError::UnsupportedVersion { path, .. } => path.as_ref(),
            AppError::UnsupportedFileType { path, .. } => Some(path),
            AppError::IoError { path, .. } => path.as_ref(),
            AppError::SettingsSaveError { .. } => None,
            AppError::SettingsLoadError { .. } => None,
        }
    }

    /// The title for the error dialog.
    pub fn dialog_title(&self) -> (r: &'static str)
        ensures
            r@ == spec_dialog_title(*self),
    {
        match self {
            AppError::FileNotFound { .. } => "File Not Found",
            AppError::FileReadError { .. } => "Cannot Read File",
            AppError::InvalidFormat { .. } => "Invalid File Format",
            AppError::UnsupportedVersion { .. } => "Unsupported Version",
            AppError::UnsupportedFileType { .. } => "Unsupported File Type",
            AppError::IoError { .. } => "I/O Error",
            AppError::SettingsSaveError { .. } => "Settings Error",
            AppError::SettingsLoadError { .. } => "Settings Error",
        }
    }

    /// A brief description of the error suitable for display.
    pub fn brief_description(&self) -> (r: String)
        ensures
            r@ == spec_brief_description(*self),
    {
        match self {
            AppError::FileNotFound { path } => {
                let mut s = String::from_str("The file '");
                s.append(path.as_str());
                s.append("' could not be found.");
                s
            },
            AppError::FileReadError { path, .. } => {
                let mut s = String::from_str("Could not read the file '");
                s.append(path.as_str());
                s.append("'.");
                s
            },
            AppError::InvalidFormat { message, .. } => message.clone(),
            AppError::UnsupportedVersion { found, supported, .. } => {
                let mut s = String::from_str("File version ");
                let d1 = u64_to_dec(*found as u64);
                s.append(d1.as_str());
                s.append(" is not supported. This viewer supports version ");
                let d2 = u64_to_dec(*supported as u64);
                s.append(d2.as_str());
                s.append(".");
                s
            },
            AppError::UnsupportedFileType { expected, .. } => {
                let mut s = String::from_str(
                    "Please use a file with one of these extensions: ",
                );
                let joined = join_strings(expected, ", ");
                s.append(joined.as_str());
                s
            },
            AppError::IoError { reason, .. } => reason.clone(),
            AppError::SettingsSaveError { reason } => {
                let mut s = String::from_str("Could not save settings: ");
                s.append(reason.as_str());
                s
            },
            AppError::SettingsLoadError { reason } => {
                let mut s = String::from_str("Could not load settings: ");
                s.append(reason.as_str());
                s
            },
        }
    }

    /// Detailed error information for technical support: the title and the
    /// brief description, followed by one line per known technical detail.
    pub fn detailed_info(&self) -> (r: String)
        ensures
            r@ == "Error Type: "@ + spec_dialog_title(*self) + "\nDescription: "@
                + spec_brief_description(*self) + spec_detail_lines(*self),
    {
        let mut s = String::from_str("Error Type: ");
        s.append(self.dialog_title());
        s.append("\nDescription: ");
        let brief = self.brief_description();
        s.append(brief.as_str());
        match self {
            AppError::FileNotFound { path } => {
                s.append("\nFull Path: ");
                s.append(path.as_str());
            },
            AppError::FileReadError { path, reason } => {
                s.append("\nFull Path: ");
                s.append(path.as_str());
                s.append("\nReason: ");
                s.append(reason.as_str());
            },
            AppError::InvalidFormat { path, message, line, column } => {
                if let Some(p) = path {
                    s.append("\nFile: ");
                    s.append(p.as_str());
                }
                if let Some(l) = line {
                    s.append("\nLine: ");
                    let d = u64_to_dec(*l as u64);
                    s.append(d.as_str());
                }
                if let Some(c) = column {
                    s.append("\nColumn: ");
                    let d = u64_to_dec(*c as u64);
                    s.append(d.as_str());
                }
                s.append("\nDetails: ");
                s.append(message.as_str());
            },
            AppError::UnsupportedVersion { path, found, supported } => {
                if let Some(p) = path {
                    s.append("\nFile: ");
                    s.append(p.as_str());
                }
                s.append("\nFound Version: ");
                let d1 = u64_to_dec(*found as u64);
                s.append(d1.as_str());
                s.append("\nSupported Version: ");
                let d2 = u64_to_dec(*supported as u64);
                s.append(d2.as_str());
            },
            AppError::UnsupportedFileType { path, expected } => {
                s.append("\nFile: ");
                s.append(path.as_str());
                s.append("\nSupported Extensions: ");
                let joined = join_strings(expected, ", ");
                s.append(joined.as_str());
            },
            AppError::IoError { path, reason } => {
                if let Some(p) = path {
                    s.append("\nPath: ");
                    s.append(p.as_str());
                }
                s.append("\nDetails: ");
                s.append(reason.as_str());
            },
            AppError::SettingsSaveError { reason } => {
                s.append("\nDetails: ");
                s.append(reason.as_str());
            },
            AppError::SettingsLoadError { reason } => {
                s.append("\nDetails: ");
                s.append(reason.as_str());
            },
        }
        s
    }
}

/// The broad classification of an I/O failure that this application
/// distinguishes.
#[derive(Debug, Clone, Copy, PartialEq, Eq, Structural)]
pub enum IoErrorKind {
    /// The file or directory does not exist.
    NotFound,
    /// Access to the file was denied.
    PermissionDenied,
    /// Any other I/O failure.
    Other,
}

#[verifier::external_type_specification]
#[verifier::external_body]
pub struct ExIoError(std::io::Error);

/// Relies on `std::io::Error::kind` to distinguish the not-found and
/// permission-denied conditions from all others.
#[verifier::external_body]
fn classify_io_error(error: &std::io::Error) -> IoErrorKind {
    match error.kind() {
        std::io::ErrorKind::NotFound => IoErrorKind::NotFound,
        std::io::ErrorKind::PermissionDenied => IoErrorKind::PermissionDenied,
        _ => IoErrorKind::Other,
    }
}

/// Relies on the `Display` implementation of `std::io::Error` for the
/// human-readable message.
#[verifier::external_body]
fn io_error_message(error: &std::io::Error) -> String {
    error.to_string()
}

/// Create an `AppError` from a path and an I/O error classification.
pub fn from_io_class(path: String, kind: IoErrorKind, message: String) -> (r: AppError)
    ensures
        match kind {
            IoErrorKind::NotFound => r == (AppError::FileNotFound { path }),
            IoErrorKind::PermissionDenied => match r {
                AppError::FileReadError { path: p, reason } => p == path && reason@
                    == "Permission denied"@,
                _ => false,
            },
            IoErrorKind::Other => r == (AppError::FileReadError { path, reason: message }),
        },
{
    match kind {
        IoErrorKind::NotFound => AppError::FileNotFound { path },
        IoErrorKind::PermissionDenied => AppError::FileReadError {
            path,
            reason: String::from_str("Permission denied"),
        },
        IoErrorKind::Other => AppError::FileReadError { path, reason: message },
    }
}

/// Create an `AppError` from a file path and an I/O error.  The error's
/// classification decides the variant; whatever it is, the result names the
/// given path.
pub fn from_io_error(path: String, error: std::io::Error) -> (r: AppError)
    ensures
        match r {
            AppError::FileNotFound { path: p } => p == path,
            AppError::FileReadError { path: p, .. } => p == path,
            _ => false,
        },
{
    let kind = classify_io_error(&error);
    let message = io_error_message(&error);
    from_io_class(path, kind, message)
}

/// Create an `AppError` from a parse error with optional path context.
pub fn from_parse_error(path: Option<String>, error: &ParseError) -> (r: AppError)
    ensures
        match *error {
            ParseError::JsonSyntax { message, line, column } => r == (AppError::InvalidFormat {
                path,
                message,
                line: if line > 0 {
                    Some(line)
                } else {
                    None
                },
                column: if column > 0 {
                    Some(column)
                } else {
                    None
                },
            }),
            ParseError::MissingField { field } => match r {
                AppError::InvalidFormat { path: p, message, line, column } => p == path && message@
                    == "Missing required field: "@ + field@ && line is None && column is None,
                _ => false,
            },
            ParseError::InvalidColor { value } => match r {
                AppError::InvalidFormat { path: p, message, line, column } => p == path && message@
                    == "Invalid color format '"@ + value@
                    + "': expected hex color like #RRGGBB"@ && line is None && column is None,
                _ => false,
            },
            ParseError::InvalidEnumValue { field, value, expected } => match r {
                AppError::InvalidFormat { path: p, message, line, column } => p == path && message@
                    == "Invalid "@ + field@ + " value '"@ + value@ + "': expected one of "@
                    + expected@ && line is None && column is None,
                _ => false,
            },
            ParseError::UnsupportedVersion { version } => r == (AppError::UnsupportedVersion {
                path,
                found: version,
                supported: 1u32,
            }),
            ParseError::InvalidMagic { .. } => match r {
                AppError::InvalidFormat { path: p, message, line, column } => p == path && message@
                    == "Invalid file signature: expected 'ILOG'"@ && line is None
                    && column is None,
                _ => false,
            },
            ParseError::FileTooSmall { expected, found } => match r {
                AppError::InvalidFormat { path: p, message, line, column } => p == path && message@
                    == "File is too small: expected at least "@ + spec_decimal(expected as int)
                    + " bytes, found "@ + spec_decimal(found as int) && line is None
                    && column is None,
                _ => false,
            },
            ParseError::InvalidBinaryEvent { index, reason } => match r {
                AppError::InvalidFormat { path: p, message, line, column } => p == path && message@
                    == "Invalid event at index "@ + spec_decimal(index as int) + ": "@ + reason@
                    && line is None && column is None,
                _ => false,
            },
            ParseError::EventCountMismatch { header_count, actual_count } => match r {
                AppError::InvalidFormat { path: p, message, line, column } => p == path && message@
                    == "Event count mismatch: header declares "@ + spec_decimal(
                    header_count as int,
                ) + " events, but file contains "@ + spec_decimal(actual_count as int)
                    && line is None && column is None,
                _ => false,
            },
        },
{
    match error {
        ParseError::JsonSyntax { message, line, column } => AppError::InvalidFormat {
            path,
            message: message.clone(),
            line: if *line > 0 {
                Some(*line)
            } else {
                None
            },
            column: if *column > 0 {
                Some(*column)
            } else {
                None
            },
        },
        ParseError::MissingField { field } => {
            let mut message = String::from_str("Missing required field: ");
            message.append(field);
            AppError::InvalidFormat { path, message, line: None, column: None }
        },
        ParseError::InvalidColor { value } => {
            let mut message = String::from_str("Invalid color format '");
            message.append(value.as_str());
            message.append("': expected hex color like #RRGGBB");
            AppError::InvalidFormat { path, message, line: None, column: None }
        },
        ParseError::InvalidEnumValue { field, value, expected } => {
            let mut message = String::from_str("Invalid ");
            message.append(field);
            message.append(" value '");
            message.append(value.as_str());
            message.append("': expected one of ");
            message.append(expected);
            AppError::InvalidFormat { path, message, line: None, column: None }
        },
        ParseError::UnsupportedVersion { version } => AppError::UnsupportedVersion {
            path,
            found: *version,
            supported: 1,
        },
        ParseError::InvalidMagic { .. } => {
            let message = String::from_str("Invalid file signature: expected 'ILOG'");
            AppError::InvalidFormat { path, message, line: None, column: None }
        },
        ParseError::FileTooSmall { expected, found } => {
            let mut message = String::from_str("File is too small: expected at least ");
            let d1 = u64_to_dec(*expected as u64);
            message.append(d1.as_str());
            message.append(" bytes, found ");
            let d2 = u64_to_dec(*found as u64);
            message.append(d2.as_str());
            AppError::InvalidFormat { path, message, line: None, column: None }
        },
        ParseError::InvalidBinaryEvent { index, reason } => {
            let mut message = String::from_str("Invalid event at index ");
            let d = u64_to_dec(*index as u64);
            message.append(d.as_str());
            message.append(": ");
            message.append(reason.as_str());
            AppError::InvalidFormat { path, message, line: None, column: None }
        },
        ParseError::EventCountMismatch { header_count, actual_count } => {
            let mut message = String::from_str("Event count mismatch: header declares ");
            let d1 = u64_to_dec(*header_count);
            message.append(d1.as_str());
            message.append(" events, but file contains ");
            let d2 = u64_to_dec(*actual_count as u64);
            message.append(d2.as_str());
            AppError::InvalidFormat { path, message, line: None, column: None }
        },
    }
}

} // verus!
