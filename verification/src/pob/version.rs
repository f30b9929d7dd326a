//! The version of the bundle, as the name of its archive tells it, and the
//! record of what is installed.

use vstd::prelude::*;
use vstd::string::StringExecFns;

use crate::errors::{ErrorKind, ErrorKindView};
use crate::pob::error::PobError;
use crate::pob::google_drive::GoogleDriveFileInfo;
use crate::util::unix_time;

verus! {

/// The record of the installed version.
#[derive(Debug)]
pub struct PobVersion {
    /// The version, a date like `2024.05.20`.
    pub version: String,
    /// When it was installed, as an RFC 3339 time.
    pub installed_at: String,
    /// The remote file that it was installed from.
    pub file_id: String,
}

impl Clone for PobVersion {
    fn clone(&self) -> (r: Self)
        ensures
            r == *self,
    {
        PobVersion {
            version: self.version.clone(),
            installed_at: self.installed_at.clone(),
            file_id: self.file_id.clone(),
        }
    }
}

/// The pattern that the name of a bundle archive matches: the title of the
/// bundle, the version as a date in brackets, and the ending. Its first
/// group is the version.
pub const VERSION_PATTERN: &'static str =
    "POE1&2 통합 한글 POB\\s?\\((\\d{4}\\.\\d{2}\\.\\d{2})\\).zip";

/// `regex::Error`: carried through as it is; nothing of it is known.
#[verifier::external_type_specification]
#[verifier::external_body]
pub struct ExRegexError(regex::Error);

/// Whether `pattern` is one that `regex::Regex::new` accepts.
pub uninterp spec fn regex_compiles(pattern: Seq<char>) -> bool;

/// What the capture group `group` of `pattern` holds in the leftmost match
/// that `regex::Regex::captures` finds in `haystack`; `None` where there is
/// no match or the group took no part in it.
pub uninterp spec fn regex_group(pattern: Seq<char>, haystack: Seq<char>, group: nat) -> Option<
    Seq<char>,
>;

/// Compiles `pattern` with `regex::Regex::new` and searches `haystack` with
/// `regex::Regex::captures`.
///
/// The contract only gives names to what the `regex` crate computes: the
/// call fails exactly on a pattern that does not compile, and otherwise
/// returns the text of capture group `group` in the leftmost match, as
/// `Captures::get` and `Match::as_str` give it. Both depend on nothing but
/// the arguments.
#[verifier::external_body]
fn first_capture(pattern: &str, haystack: &str, group: usize) -> (r: Result<
    Option<String>,
    regex::Error,
>)
    ensures
        r is Ok <==> regex_compiles(pattern@),
        r matches Ok(found) ==> match found {
            Some(text) => regex_group(pattern@, haystack@, group as nat) == Some(text@),
            None => regex_group(pattern@, haystack@, group as nat) is None,
        },
{
    let re = regex::Regex::new(pattern)?;
    match re.captures(haystack) {
        Some(caps) => Ok(caps.get(group).map(|m| m.as_str().to_string())),
        None => Ok(None),
    }
}

/// The version that the pattern finds in `name`, if it finds one.
pub open spec fn version_in(name: Seq<char>) -> Option<Seq<char>> {
    if regex_compiles(VERSION_PATTERN@) {
        regex_group(VERSION_PATTERN@, name, 1)
    } else {
        None
    }
}

/// The version of an archive called `name`, given what the pattern's first
/// group captured in it: that text, or the failure to parse `name`.
pub fn version_from_capture(name: &str, capture: Option<String>) -> (r: Result<String, PobError>)
    ensures
        match capture {
            Some(v) => r == Ok::<String, PobError>(v),
            None => r matches Err(PobError::VersionParseError(n)) && n@ == name@,
        },
{
    match capture {
        Some(v) => Ok(v),
        None => Err(PobError::VersionParseError(String::from_str(name))),
    }
}

/// Reads the version out of the name of a bundle archive: what
/// [`VERSION_PATTERN`] captures in it. A name that the pattern does not
/// match has no version.
pub fn parse_from_name(name: &str) -> (r: Result<String, PobError>)
    ensures
        match r {
            Ok(v) => version_in(name@) == Some(v@),
            Err(e) => version_in(name@) is None && (e matches PobError::VersionParseError(n)
                && n@ == name@),
        },
{
    match first_capture(VERSION_PATTERN, name, 1) {
        Ok(capture) => version_from_capture(name, capture),
        Err(_) => Err(PobError::VersionParseError(String::from_str(name))),
    }
}

/// Reads the version out of the name of a bundle archive, for a caller who
/// sorts failures by kind: a name without a version is a domain error.
pub fn parse_version(file_name: &str) -> (r: Result<String, ErrorKind>)
    ensures
        match r {
            Ok(v) => version_in(file_name@) == Some(v@),
            Err(kind) => version_in(file_name@) is None && kind@ == ErrorKindView::Domain(
                "버전 파싱 실패: "@ + file_name@,
            ),
        },
{
    match parse_from_name(file_name) {
        Ok(v) => Ok(v),
        Err(e) => Err(ErrorKind::from(e)),
    }
}

/// The time `secs` seconds and `nanos` nanoseconds after the Unix epoch,
/// written in UTC as `chrono` writes an RFC 3339 time; `None` where
/// `chrono` has no such time.
pub uninterp spec fn rfc3339_text(secs: i64, nanos: u32) -> Option<Seq<char>>;

/// The last second of the year 9999, counted from the Unix epoch.
pub const LAST_SECOND_OF_9999: i64 = 253_402_300_799;

/// Whether a time lies between the Unix epoch and the end of the year 9999
/// and names no leap second.
pub open spec fn in_common_era(secs: i64, nanos: u32) -> bool {
    0 <= secs <= LAST_SECOND_OF_9999 && nanos < 1_000_000_000
}

/// Makes the time with `chrono::DateTime::from_timestamp` and writes it
/// with `DateTime::to_rfc3339`.
///
/// The contract gives a name to what the `chrono` crate computes from the
/// two numbers alone. It adds one fact of the source: `from_timestamp`
/// refuses no time from the Unix epoch to the end of the year 9999 whose
/// nanoseconds stay below one billion. Neither function panics.
#[verifier::external_body]
fn utc_rfc3339(secs: i64, nanos: u32) -> (text: Option<String>)
    ensures
        match text {
            Some(t) => rfc3339_text(secs, nanos) == Some(t@),
            None => rfc3339_text(secs, nanos) is None,
        },
        in_common_era(secs, nanos) ==> text is Some,
{
    chrono::DateTime::<chrono::Utc>::from_timestamp(secs, nanos).map(|t| t.to_rfc3339())
}

/// The text that stamps a record made when the clock read `clock`, whole
/// seconds since the Unix epoch and nanoseconds of the running second: the
/// RFC 3339 text of that time. Where the clock is set before the epoch, or
/// to a time that has no such text, the stamp is that of the epoch.
pub open spec fn stamp_text(clock: Option<(u64, u32)>) -> Option<Seq<char>> {
    match clock {
        Some((secs, nanos)) => if secs <= i64::MAX && rfc3339_text(secs as i64, nanos) is Some {
            rfc3339_text(secs as i64, nanos)
        } else {
            rfc3339_text(0, 0)
        },
        None => rfc3339_text(0, 0),
    }
}

/// The text of the Unix epoch.
fn epoch_rfc3339() -> (text: String)
    ensures
        rfc3339_text(0, 0) == Some(text@),
{
    utc_rfc3339(0, 0).unwrap()
}

/// The text that stamps a record made when the clock read `clock`.
pub fn rfc3339_at(clock: Option<(u64, u32)>) -> (text: String)
    ensures
        stamp_text(clock) == Some(text@),
{
    match clock {
        Some((secs, nanos)) => {
            if secs > 0x7fff_ffff_ffff_ffff {
                return epoch_rfc3339();
            }
            match utc_rfc3339(secs as i64, nanos) {
                Some(text) => text,
                None => epoch_rfc3339(),
            }
        },
        None => epoch_rfc3339(),
    }
}

impl PobVersion {
    /// The record of the installation of `file` at the time `installed_at`.
    /// There is none where the name of the file tells no version.
    pub fn installed_from(file: &GoogleDriveFileInfo, installed_at: String) -> (r: Result<
        PobVersion,
        PobError,
    >)
        ensures
            match r {
                Ok(record) => {
                    &&& version_in(file.name@) == Some(record.version@)
                    &&& record.installed_at == installed_at
                    &&& record.file_id@ == file.id@
                },
                Err(e) => version_in(file.name@) is None && (e matches PobError::VersionParseError(
                    n,
                ) && n@ == file.name@),
            },
    {
        match parse_from_name(file.name.as_str()) {
            Ok(version) => Ok(PobVersion { version, installed_at, file_id: file.id.clone() }),
            Err(e) => Err(e),
        }
    }

    /// The record of the installation of `file` now, stamped with the
    /// reading of the system clock as [`rfc3339_at`] writes it. There is
    /// none where the name of the file tells no version.
    pub fn try_from(file: &GoogleDriveFileInfo) -> (r: Result<PobVersion, PobError>)
        ensures
            match r {
                Ok(record) => {
                    &&& version_in(file.name@) == Some(record.version@)
                    &&& record.file_id@ == file.id@
                    &&& exists|clock: Option<(u64, u32)>|
                        #[trigger] stamp_text(clock) == Some(record.installed_at@)
                    &&& exists|secs: i64, nanos: u32|
                        #[trigger] rfc3339_text(secs, nanos) == Some(record.installed_at@)
                },
                Err(e) => version_in(file.name@) is None && (e matches PobError::VersionParseError(
                    n,
                ) && n@ == file.name@),
            },
    {
        PobVersion::installed_from(file, rfc3339_at(unix_time()))
    }
}

} // verus!
