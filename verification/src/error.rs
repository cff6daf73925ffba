//! The error taxonomy shared by every command.

use vstd::prelude::*;
use crate::text::joined;

verus! {

/// The kind of error.
#[derive(Debug)]
pub enum ErrorKind {
    /// A JSON-RPC error, carrying the failure the transport layer reported.
    JsonRpc(jsonrpc::Error),
    /// The daemon failed to give a valid response.
    Daemon,
    /// Any other error.
    Other,
}

impl From<jsonrpc::Error> for ErrorKind {
    fn from(e: jsonrpc::Error) -> (kind: ErrorKind) {
        ErrorKind::JsonRpc(e)
    }
}

impl vstd::std_specs::convert::FromSpecImpl<jsonrpc::Error> for ErrorKind {
    open spec fn obeys_from_spec() -> bool {
        true
    }

    open spec fn from_spec(e: jsonrpc::Error) -> ErrorKind {
        ErrorKind::JsonRpc(e)
    }
}

/// The error type for bitcoin JSON-RPC operations: a kind and a human
/// description.
#[derive(Debug)]
pub struct ClientError {
    pub kind: ErrorKind,
    pub desc: String,
}

/// Description attached to a failure reported by the transport.
pub open spec fn rpc_error_text() -> Seq<char> {
    "RPC error"@
}

/// Description attached to a reply that does not decode.
pub open spec fn malformed_text() -> Seq<char> {
    "Malformed response"@
}

/// `jsonrpc::Error`'s `Display` output for `e`. Nothing is claimed of the
/// text: it may embed operating-system messages.
#[verifier::external_body]
fn cause_text(e: &jsonrpc::Error) -> (text: String) {
    format!("{}", e)
}

impl ClientError {
    /// Pairs a kind with a description.
    pub fn new(kind: ErrorKind, desc: &str) -> (e: ClientError)
        ensures
            e.kind == kind,
            e.desc@ == desc@,
    {
        ClientError { kind, desc: desc.to_owned() }
    }

    /// The display form of the error, given the display form of the
    /// underlying cause. The cause only shows for a JSON-RPC error.
    pub open spec fn rendered(&self, cause: Seq<char>) -> Seq<char> {
        match self.kind {
            ErrorKind::JsonRpc(_) => "JSON-RPC error: "@ + self.desc@ + " ("@ + cause + ")"@,
            ErrorKind::Daemon => "bitcoind daemon error: "@ + self.desc@,
            ErrorKind::Other => self.desc@,
        }
    }

    /// Formats the error around an already formatted cause.
    pub fn render(&self, cause: &str) -> (text: String)
        ensures
            text@ == self.rendered(cause@),
    {
        match &self.kind {
            ErrorKind::JsonRpc(_) => {
                let mut out = joined("JSON-RPC error: ", self.desc.as_str());
                out.push_str(" (");
                out.push_str(cause);
                out.push_str(")");
                out
            },
            ErrorKind::Daemon => joined("bitcoind daemon error: ", self.desc.as_str()),
            ErrorKind::Other => self.desc.clone(),
        }
    }

    /// The display form of the error. For a JSON-RPC error the text of the
    /// underlying cause is whatever the transport layer prints for it.
    pub fn message(&self) -> (text: String)
        ensures
            match self.kind {
                ErrorKind::JsonRpc(_) => exists|cause: Seq<char>| text@ == self.rendered(cause),
                _ => text@ == self.rendered(Seq::empty()),
            },
    {
        match &self.kind {
            ErrorKind::JsonRpc(e) => {
                let cause = cause_text(e);
                self.render(cause.as_str())
            },
            _ => self.render(""),
        }
    }
}

} // verus!
