use vstd::prelude::*;

verus! {

/// The stage class of a failure, so that callers branch on it rather than on text.
#[derive(Clone, Copy, Debug, PartialEq, Eq, Structural)]
pub enum ErrorKind {
    /// A missing or malformed request parameter.
    ClientInput,
    /// A missing configuration value.
    Configuration,
    /// The object store failed.
    Storage,
    /// The token provider refused or could not be reached.
    Provider,
    /// A code, token or cached object could not be decoded.
    Codec,
}

/// A failure of the handler: its kind and a human-readable cause.
#[derive(Clone, Debug)]
pub struct HandlerError {
    pub kind: ErrorKind,
    pub message: String,
}

/// Builds an error of the given kind carrying `msg` as its message.
pub fn make_error(kind: ErrorKind, msg: &str) -> (r: HandlerError)
    ensures
        r.kind == kind,
        r.message@ == msg@,
{
    HandlerError { kind, message: String::from_str(msg) }
}

/// Builds an error whose message is `stage` followed by `cause`.
pub(crate) fn stage_error(kind: ErrorKind, stage: &str, cause: &str) -> (r: HandlerError)
    ensures
        r.kind == kind,
        r.message@ == stage@ + cause@,
{
    let mut message = String::from_str(stage);
    message.append(cause);
    HandlerError { kind, message }
}

} // verus!
