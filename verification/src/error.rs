//! The state-access errors and the translation of remote failures into them.

use vstd::prelude::*;
use vstd::string::StringExecFns;
use crate::felt::Felt;

verus! {

/// Why a state read failed.
#[derive(Clone, Debug, PartialEq, Eq)]
pub enum StateError {
    /// The request could not be sent at all.
    Unreachable(String),
    /// The remote endpoint answered with an error, or scanning a block failed.
    ProtocolError(String),
    /// The class hash is not declared at the target block.
    UndeclaredClassHash(Felt),
    /// The operation does not exist on a forked state.
    Unsupported(String),
}

/// A state error with its message as a sequence of characters.
pub enum StateErrorView {
    Unreachable(Seq<char>),
    ProtocolError(Seq<char>),
    UndeclaredClassHash(Felt),
    Unsupported(Seq<char>),
}

impl View for StateError {
    type V = StateErrorView;

    open spec fn view(&self) -> StateErrorView {
        match self {
            StateError::Unreachable(m) => StateErrorView::Unreachable(m@),
            StateError::ProtocolError(m) => StateErrorView::ProtocolError(m@),
            StateError::UndeclaredClassHash(h) => StateErrorView::UndeclaredClassHash(*h),
            StateError::Unsupported(m) => StateErrorView::Unsupported(m@),
        }
    }
}

/// A result with its error taken by its view.
pub open spec fn result_view<T>(result: Result<T, StateError>) -> Result<T, StateErrorView> {
    match result {
        Ok(value) => Ok(value),
        Err(error) => Err(error@),
    }
}

impl StateError {
    /// The message that the error carries.
    pub fn message(&self) -> (m: String)
        ensures
            m@ == (match self@ {
                StateErrorView::Unreachable(t) => t,
                StateErrorView::ProtocolError(t) => t,
                StateErrorView::UndeclaredClassHash(h) => "Class hash is not declared: "@
                    + h.hex(),
                StateErrorView::Unsupported(t) => t,
            }),
    {
        match self {
            StateError::Unreachable(t) => t.clone(),
            StateError::ProtocolError(t) => t.clone(),
            StateError::UndeclaredClassHash(h) => {
                let hex = h.to_hex();
                String::from_str("Class hash is not declared: ").concat(hex.as_str())
            },
            StateError::Unsupported(t) => t.clone(),
        }
    }
}

/// What kind of failure the remote client reported.
#[derive(Clone, Copy, Debug, PartialEq, Eq, Structural)]
pub enum FailureKind {
    /// The ledger knows no contract at the address.
    ContractNotFound,
    /// The ledger knows no class with the hash.
    ClassHashNotFound,
    /// The transport itself failed; the text is that of the transport error.
    Transport,
    /// Any other error of the client.
    Other,
}

/// A failed remote call: its kind and the text of the client's error.
#[derive(Clone, Debug, PartialEq, Eq)]
pub struct RemoteFailure {
    pub kind: FailureKind,
    pub text: String,
}

/// `pattern` occurs in `text` as a contiguous run of characters.
pub open spec fn has_substring(text: Seq<char>, pattern: Seq<char>) -> bool {
    exists|i: int|
        0 <= i && i + pattern.len() <= text.len() && #[trigger] text.subrange(
            i,
            i + pattern.len(),
        ) == pattern
}

/// Calls `str::contains` with a string pattern, which tells whether the
/// pattern matches a sub-slice of the text.
#[verifier::external_body]
pub(crate) fn text_contains(text: &str, pattern: &str) -> (found: bool)
    ensures
        found == has_substring(text@, pattern@),
{
    text.contains(pattern)
}

/// The message for a request that could not be sent.
pub open spec fn unreachable_text() -> Seq<char> {
    "Unable to reach the node. Check your internet connection and node url"@
}

/// The error that a transport failure with the text `cause` becomes.
pub open spec fn transport_error(cause: Seq<char>) -> StateErrorView {
    if has_substring(cause, "error sending request for url"@) {
        StateErrorView::Unreachable(unreachable_text())
    } else {
        StateErrorView::ProtocolError("JsonRpc provider error: "@ + cause)
    }
}

/// Translates the text of a transport error: a failure to send the request
/// becomes `Unreachable` with advice for the user, anything else a
/// `ProtocolError` that quotes the text.
pub fn transport_failure(err_str: &str) -> (e: StateError)
    ensures
        e@ == transport_error(err_str@),
{
    if text_contains(err_str, "error sending request for url") {
        StateError::Unreachable(String::from_str(
            "Unable to reach the node. Check your internet connection and node url",
        ))
    } else {
        StateError::ProtocolError(String::from_str("JsonRpc provider error: ").concat(err_str))
    }
}

/// The failed result that the text of a transport error stands for, whatever
/// the type of the value that was asked for.
pub fn other_provider_error<T>(err_str: &str) -> (r: Result<T, StateError>)
    ensures
        r is Err,
        r->Err_0@ == transport_error(err_str@),
{
    Err(transport_failure(err_str))
}

/// The message of a failed query about `subject`, quoting the client's error.
pub open spec fn fork_failure_text(subject: Seq<char>, cause: Seq<char>) -> Seq<char> {
    "Unable to get "@ + subject + " from fork ("@ + cause + ")"@
}

/// The error that `failure` becomes for a query about `subject`, where the
/// query has no special answer for the failure's kind.
pub open spec fn failure_error(subject: Seq<char>, kind: FailureKind, text: Seq<char>) -> StateErrorView {
    if kind == FailureKind::Transport {
        transport_error(text)
    } else {
        StateErrorView::ProtocolError(fork_failure_text(subject, text))
    }
}

/// Translates a remote failure for a query about `subject`.
pub fn translate_failure(subject: &str, failure: &RemoteFailure) -> (e: StateError)
    ensures
        e@ == failure_error(subject@, failure.kind, failure.text@),
{
    match failure.kind {
        FailureKind::Transport => transport_failure(failure.text.as_str()),
        _ => {
            let message = String::from_str("Unable to get ").concat(subject).concat(
                " from fork (",
            ).concat(failure.text.as_str()).concat(")");
            StateError::ProtocolError(message)
        },
    }
}

/// A text that stands in a longer one between two others occurs in it.
pub proof fn lemma_middle_is_substring(before: Seq<char>, middle: Seq<char>, after: Seq<char>)
    ensures
        has_substring(before + middle + after, middle),
{
    let whole = before + middle + after;
    let at = before.len() as int;
    assert(whole.subrange(at, at + middle.len()) =~= middle);
}

/// Every `ProtocolError` that a remote failure is translated into quotes the
/// text of the client's error.
pub proof fn lemma_protocol_error_quotes_cause(subject: Seq<char>, kind: FailureKind, text: Seq<char>)
    ensures
        failure_error(subject, kind, text) matches StateErrorView::ProtocolError(message)
            ==> has_substring(message, text),
{
    if kind == FailureKind::Transport {
        lemma_middle_is_substring("JsonRpc provider error: "@, text, Seq::empty());
        assert("JsonRpc provider error: "@ + text + Seq::<char>::empty() =~= "JsonRpc provider error: "@
            + text);
    } else {
        lemma_middle_is_substring("Unable to get "@ + subject + " from fork ("@, text, ")"@);
    }
}

} // verus!
