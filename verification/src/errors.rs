//! The kinds of failure that the caller of the pipeline tells apart.

use vstd::prelude::*;
use vstd::std_specs::convert::FromSpecImpl;
use vstd::string::StringExecFns;

use crate::pob::error::PobError;

verus! {

/// A failure, sorted by what can be done about it.
#[derive(Debug)]
pub enum ErrorKind {
    /// The user cancelled: nothing to show.
    Cancelled,
    /// The network failed: trying again may help.
    Network(String),
    /// The filesystem failed.
    Io(String),
    /// Something is not where it was looked for.
    NotFound(String),
    /// Something else is under way: the program runs, or another install
    /// or uninstall does.
    Conflict(String),
    /// Everything else.
    Domain(String),
}

/// An [`ErrorKind`] with its text as a sequence of characters.
pub enum ErrorKindView {
    Cancelled,
    Network(Seq<char>),
    Io(Seq<char>),
    NotFound(Seq<char>),
    Conflict(Seq<char>),
    Domain(Seq<char>),
}

impl View for ErrorKind {
    type V = ErrorKindView;

    open spec fn view(&self) -> ErrorKindView {
        match *self {
            ErrorKind::Cancelled => ErrorKindView::Cancelled,
            ErrorKind::Network(m) => ErrorKindView::Network(m@),
            ErrorKind::Io(m) => ErrorKindView::Io(m@),
            ErrorKind::NotFound(m) => ErrorKindView::NotFound(m@),
            ErrorKind::Conflict(m) => ErrorKindView::Conflict(m@),
            ErrorKind::Domain(m) => ErrorKindView::Domain(m@),
        }
    }
}

/// The kind of a pipeline error. A cancellation stays one. A running
/// program is a conflict. Transport and filesystem failures keep their
/// text, a missing remote file its name. Everything else is a domain error
/// with the error's own text.
pub open spec fn error_kind_of(err: PobError) -> ErrorKindView {
    match err {
        PobError::Cancelled => ErrorKindView::Cancelled,
        PobError::ProcessRunning => ErrorKindView::Conflict(
            "PoB가 실행 중입니다. 종료 후 다시 시도해주세요."@,
        ),
        PobError::Network(m) => ErrorKindView::Network(m@),
        PobError::Io(m) => ErrorKindView::Io(m@),
        PobError::NotFoundFromDrive(m) => ErrorKindView::NotFound(m@),
        other => ErrorKindView::Domain(other.message()),
    }
}

impl FromSpecImpl<PobError> for ErrorKind {
    open spec fn obeys_from_spec() -> bool {
        false
    }

    open spec fn from_spec(v: PobError) -> ErrorKind {
        arbitrary()
    }
}

impl From<PobError> for ErrorKind {
    /// The kind of a pipeline error: see [`error_kind_of`].
    fn from(err: PobError) -> (kind: ErrorKind)
        ensures
            kind@ == error_kind_of(err),
    {
        match err {
            PobError::Cancelled => ErrorKind::Cancelled,
            PobError::ProcessRunning => ErrorKind::Conflict(
                String::from_str("PoB가 실행 중입니다. 종료 후 다시 시도해주세요."),
            ),
            PobError::Network(m) => ErrorKind::Network(m),
            PobError::Io(m) => ErrorKind::Io(m),
            PobError::NotFoundFromDrive(m) => ErrorKind::NotFound(m),
            other => ErrorKind::Domain(other.to_string()),
        }
    }
}

impl ErrorKind {
    /// What is answered to an install or uninstall that is asked for while
    /// another one runs.
    pub fn operation_in_progress() -> (kind: ErrorKind)
        ensures
            kind@ == ErrorKindView::Conflict("이미 다른 설치 작업이 진행 중입니다."@),
    {
        ErrorKind::Conflict(String::from_str("이미 다른 설치 작업이 진행 중입니다."))
    }

    /// What is answered when the installed program cannot be started; the
    /// text says why.
    pub fn launch_failed(reason: &str) -> (kind: ErrorKind)
        ensures
            kind@ == ErrorKindView::Domain("POB 실행에 실패했습니다: "@ + reason@),
    {
        let mut text = String::from_str("POB 실행에 실패했습니다: ");
        text.append(reason);
        ErrorKind::Domain(text)
    }
}

/// `std::io::Error`: carried through as it is; nothing of it is known.
#[verifier::external_type_specification]
#[verifier::external_body]
pub struct ExIoError(std::io::Error);

/// The text of an I/O error, as `std::io::Error` displays it. Nothing is
/// claimed of the text: for an error of the operating system it is the
/// system's own.
#[verifier::external_body]
fn io_error_text(err: &std::io::Error) -> (text: String) {
    err.to_string()
}

impl FromSpecImpl<std::io::Error> for ErrorKind {
    open spec fn obeys_from_spec() -> bool {
        false
    }

    open spec fn from_spec(v: std::io::Error) -> ErrorKind {
        arbitrary()
    }
}

impl From<std::io::Error> for ErrorKind {
    /// A filesystem failure, with the text of the error.
    fn from(err: std::io::Error) -> (kind: ErrorKind)
        ensures
            kind is Io,
    {
        ErrorKind::Io(io_error_text(&err))
    }
}

} // verus!
