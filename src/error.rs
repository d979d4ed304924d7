use vstd::prelude::*;
use vstd::string::StringExecFns;

verus! {

/// The closed set of failure kinds of one resolution or request.
#[derive(PartialEq, Eq, Structural, Clone, Copy, Debug)]
pub enum ErrorKind {
    MissingEnvironment,
    SecretFetchFailed,
    MalformedSecret,
    AuthTransportError,
    AuthDecodeError,
    FetchTransportError,
    DecodeError,
    InvalidRequest,
}

/// A failure of some stage, with the message that explains it.
#[derive(Clone, Debug)]
pub struct ServiceError {
    pub kind: ErrorKind,
    pub message: String,
}

impl ServiceError {
    pub fn new(kind: ErrorKind, message: &str) -> (r: ServiceError)
        ensures
            r.kind == kind,
            r.message@ == message@,
    {
        ServiceError { kind, message: String::from_str(message) }
    }

    /// Keeps a message handed over from elsewhere (a transport failure, a
    /// decoder's complaint) unchanged.
    pub fn with_message(kind: ErrorKind, message: String) -> (r: ServiceError)
        ensures
            r.kind == kind,
            r.message == message,
    {
        ServiceError { kind, message }
    }

    pub fn kind(&self) -> (r: ErrorKind)
        ensures
            r == self.kind,
    {
        self.kind
    }

    pub fn message(&self) -> (r: String)
        ensures
            r@ == self.message@,
    {
        self.message.clone()
    }
}

} // verus!
