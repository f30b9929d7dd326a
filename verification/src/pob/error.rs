//! Errors of the bundle pipeline.

use vstd::prelude::*;
use vstd::string::StringExecFns;

verus! {

/// What can go wrong in the pipeline.
///
/// Failures of the transport, the filesystem and the archive reader are
/// carried as the text of their message.
#[derive(Debug)]
pub enum PobError {
    /// The user cancelled the operation.
    Cancelled,
    /// The installed program is running.
    ProcessRunning,
    /// The remote file is absent.
    NotFoundFromDrive(String),
    /// The download failed.
    DownloadFailed(String),
    /// The archive could not be extracted.
    ExtractFailed(String),
    /// No version could be read from a file name.
    VersionParseError(String),
    /// Transport failure.
    Network(String),
    /// Filesystem failure.
    Io(String),
    /// Malformed JSON.
    Json(String),
    /// Archive reader failure.
    Zip(String),
    /// Failure of the GUI runtime.
    Tauri(String),
    /// A background task could not be joined.
    Join(String),
}

/// `prefix` followed by `detail`.
fn prefixed(prefix: &str, detail: &String) -> (s: String)
    ensures
        s@ == prefix@ + detail@,
{
    let mut s = String::from_str(prefix);
    s.append(detail.as_str());
    s
}

impl PobError {
    /// The text shown for this error.
    pub open spec fn message(self) -> Seq<char> {
        match self {
            PobError::Cancelled => "설치가 취소되었습니다"@,
            PobError::ProcessRunning => "PoB가 실행 중입니다"@,
            PobError::NotFoundFromDrive(m) => "Google Drive에서 파일을 찾을 수 없습니다: "@ + m@,
            PobError::DownloadFailed(m) => "다운로드 실패: "@ + m@,
            PobError::ExtractFailed(m) => "압축 해제 실패: "@ + m@,
            PobError::VersionParseError(m) => "버전 파싱 실패: "@ + m@,
            PobError::Network(m) => "네트워크 에러: "@ + m@,
            PobError::Io(m) => "I/O 에러: "@ + m@,
            PobError::Json(m) => "JSON 파싱 에러: "@ + m@,
            PobError::Zip(m) => "ZIP 에러: "@ + m@,
            PobError::Tauri(m) => "Tauri 에러: "@ + m@,
            PobError::Join(m) => "작업 조인 에러: "@ + m@,
        }
    }

    /// The text shown for this error.
    pub fn to_string(&self) -> (s: String)
        ensures
            s@ == self.message(),
    {
        match self {
            PobError::Cancelled => String::from_str("설치가 취소되었습니다"),
            PobError::ProcessRunning => String::from_str("PoB가 실행 중입니다"),
            PobError::NotFoundFromDrive(m) => prefixed("Google Drive에서 파일을 찾을 수 없습니다: ", m),
            PobError::DownloadFailed(m) => prefixed("다운로드 실패: ", m),
            PobError::ExtractFailed(m) => prefixed("압축 해제 실패: ", m),
            PobError::VersionParseError(m) => prefixed("버전 파싱 실패: ", m),
            PobError::Network(m) => prefixed("네트워크 에러: ", m),
            PobError::Io(m) => prefixed("I/O 에러: ", m),
            PobError::Json(m) => prefixed("JSON 파싱 에러: ", m),
            PobError::Zip(m) => prefixed("ZIP 에러: ", m),
            PobError::Tauri(m) => prefixed("Tauri 에러: ", m),
            PobError::Join(m) => prefixed("작업 조인 에러: ", m),
        }
    }
}

impl Clone for PobError {
    fn clone(&self) -> (r: Self)
        ensures
            r == *self,
    {
        match self {
            PobError::Cancelled => PobError::Cancelled,
            PobError::ProcessRunning => PobError::ProcessRunning,
            PobError::NotFoundFromDrive(m) => PobError::NotFoundFromDrive(m.clone()),
            PobError::DownloadFailed(m) => PobError::DownloadFailed(m.clone()),
            PobError::ExtractFailed(m) => PobError::ExtractFailed(m.clone()),
            PobError::VersionParseError(m) => PobError::VersionParseError(m.clone()),
            PobError::Network(m) => PobError::Network(m.clone()),
            PobError::Io(m) => PobError::Io(m.clone()),
            PobError::Json(m) => PobError::Json(m.clone()),
            PobError::Zip(m) => PobError::Zip(m.clone()),
            PobError::Tauri(m) => PobError::Tauri(m.clone()),
            PobError::Join(m) => PobError::Join(m.clone()),
        }
    }
}

} // verus!
