//! Project metadata and the checks made when a project file is opened.
use vstd::prelude::*;
use vstd::string::*;

use crate::text::{spec_starts_with, starts_with};

verus! {

/// Why a project file could not be read or written.
#[derive(Debug)]
pub enum FileError {
    Io(String),
    JsonParse(String),
    JsonWrite(String),
    Validation(Vec<String>),
    Locked(String),
    UnsupportedVersion(String),
}

/// Who made a project, when, and with which format version.
#[derive(Debug, Clone)]
pub struct ProjectMetadata {
    pub version: String,
    pub application: String,
    pub created_at: String,
    pub modified_at: String,
    pub author: String,
    pub description: String,
}

/// The format version written by this application: `1.0.0`.
pub fn default_version() -> (r: String)
    ensures
        r@ == "1.0.0"@,
{
    String::from_str("1.0.0")
}

/// The application name: `EMStudio`.
pub fn default_application() -> (r: String)
    ensures
        r@ == "EMStudio"@,
{
    String::from_str("EMStudio")
}

impl Default for ProjectMetadata {
    fn default() -> (r: Self)
        ensures
            r.version@ == "1.0.0"@,
            r.application@ == "EMStudio"@,
            r.created_at@ == Seq::<char>::empty(),
            r.modified_at@ == Seq::<char>::empty(),
            r.author@ == Seq::<char>::empty(),
            r.description@ == Seq::<char>::empty(),
    {
        ProjectMetadata {
            version: default_version(),
            application: default_application(),
            created_at: String::new(),
            modified_at: String::new(),
            author: String::new(),
            description: String::new(),
        }
    }
}

/// Whether a project file of format `version` can be read: any `1.x`.
pub open spec fn spec_version_supported(version: Seq<char>) -> bool {
    spec_starts_with(version, "1."@)
}

/// Accept a project file of format `version`, or refuse it as unsupported.
pub fn check_version(version: &str) -> (r: Result<(), FileError>)
    ensures
        r is Ok <==> spec_version_supported(version@),
        r matches Err(FileError::UnsupportedVersion(v)) ==> v@ == version@,
        r is Err ==> r matches Err(FileError::UnsupportedVersion(_)),
{
    if starts_with(version, "1.") {
        Ok(())
    } else {
        Err(FileError::UnsupportedVersion(String::from_str(version)))
    }
}

/// What `serde_json::from_str` into a `serde_json::Value` makes of the text
/// of a project file, read at `metadata.version`: the error's text when the
/// text is not JSON, else the version when that field is a string, and
/// nothing when it is missing or not a string.
pub uninterp spec fn spec_json_metadata_version(json: Seq<char>) -> Result<Option<Seq<char>>, Seq<char>>;

/// Parses `json` with `serde_json::from_str` into a `serde_json::Value`,
/// then takes the string at `metadata.version` through `Value::get` and
/// `Value::as_str`; a parse error comes back as its `Display` text. The
/// contract only names the result: what counts as JSON is serde_json's.
#[verifier::external_body]
fn json_metadata_version(json: &str) -> (r: Result<Option<String>, String>)
    ensures
        match spec_json_metadata_version(json@) {
            Ok(Some(v)) => r matches Ok(Some(s)) && s@ == v,
            Ok(None) => r matches Ok(None),
            Err(m) => r matches Err(e) && e@ == m,
        },
{
    let raw: serde_json::Value = match serde_json::from_str(json) {
        Ok(v) => v,
        Err(e) => return Err(e.to_string()),
    };
    let version = match raw.get("metadata") {
        Some(m) => m.get("version"),
        None => None,
    };
    match version {
        Some(v) => Ok(v.as_str().map(String::from)),
        None => Ok(None),
    }
}

/// The version a project file is read as: the one its metadata names, or
/// `1.0.0` when it names none.
pub open spec fn spec_effective_version(named: Option<Seq<char>>) -> Seq<char> {
    match named {
        Some(v) => v,
        None => "1.0.0"@,
    }
}

/// Whether `r` is the answer owed to a project file whose text parsed as
/// `parsed`: a JSON error with the parser's text, else acceptance exactly
/// when the version read is supported, and otherwise an
/// unsupported-version error naming it.
pub open spec fn spec_project_check(parsed: Result<Option<Seq<char>>, Seq<char>>, r: Result<(), FileError>) -> bool {
    match parsed {
        Err(m) => r matches Err(FileError::JsonParse(e)) && e@ == m,
        Ok(named) => {
            let v = spec_effective_version(named);
            &&& (r is Ok <==> spec_version_supported(v))
            &&& (r is Err ==> (r matches Err(FileError::UnsupportedVersion(u)) && u@ == v))
        },
    }
}

/// Decide on a project file from what parsing its text gave: a parse error
/// is a JSON error, and otherwise the version it names (`1.0.0` when it
/// names none) must be supported.
pub fn check_parsed_version(parsed: Result<Option<String>, String>) -> (r: Result<(), FileError>)
    ensures
        spec_project_check(
            match parsed {
                Ok(Some(v)) => Ok(Some(v@)),
                Ok(None) => Ok(None),
                Err(m) => Err(m@),
            },
            r,
        ),
{
    match parsed {
        Err(m) => Err(FileError::JsonParse(m)),
        Ok(Some(v)) => check_version(v.as_str()),
        Ok(None) => {
            let v = default_version();
            check_version(v.as_str())
        },
    }
}

/// Check the text of a JSON project file before it is read: it must be
/// JSON, and the format version in its metadata (`1.0.0` when it names
/// none) must be a `1.x` one.
pub fn check_project_json(json: &str) -> (r: Result<(), FileError>)
    ensures
        spec_project_check(spec_json_metadata_version(json@), r),
{
    let parsed = json_metadata_version(json);
    check_parsed_version(parsed)
}

/// The time written into a lock file.
pub fn chrono_now_stub() -> (r: String)
    ensures
        r@ == "2026-01-01T00:00:00Z"@,
{
    String::from_str("2026-01-01T00:00:00Z")
}

} // verus!
