use vstd::prelude::*;

verus! {

/// The unified error taxonomy of the crate. Host I/O errors are translated
/// to one of these kinds at the boundary of the library.
#[derive(Debug, Clone, Copy, PartialEq, Eq, Structural)]
pub enum IoErrorKind {
    UnexpectedEof,
    InvalidData,
    Interrupted,
    PermissionDenied,
    NotFound,
    Other,
}

/// An error kind with a short static message.
#[derive(Debug, Clone, Copy)]
pub struct IoError {
    pub kind: IoErrorKind,
    pub message: &'static str,
}

pub type IoResult<T> = Result<T, IoError>;

impl IoError {
    pub open spec fn spec_kind(&self) -> IoErrorKind {
        self.kind
    }

    pub fn with_message(kind: IoErrorKind, message: &'static str) -> (r: IoError)
        ensures
            r.spec_kind() == kind,
    {
        IoError { kind, message }
    }

    pub fn unexpected_eof() -> (r: IoError)
        ensures
            r.spec_kind() == IoErrorKind::UnexpectedEof,
    {
        IoError { kind: IoErrorKind::UnexpectedEof, message: "unexpected end of stream" }
    }

    pub fn invalid_data(message: &'static str) -> (r: IoError)
        ensures
            r.spec_kind() == IoErrorKind::InvalidData,
    {
        IoError { kind: IoErrorKind::InvalidData, message }
    }

    #[verifier::when_used_as_spec(spec_kind)]
    pub fn kind(&self) -> (r: IoErrorKind)
        ensures
            r == self.spec_kind(),
    {
        self.kind
    }

    pub fn message(&self) -> &'static str {
        self.message
    }
}

} // verus!
