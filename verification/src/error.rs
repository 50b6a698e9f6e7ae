//! The error taxonomy of the facade, and its translation to the single wire
//! error shape.
//!
//! Internally failures are told apart — an unsupported feature, a failure to
//! resolve the canonical head, a failed collaborator query, malformed raw
//! transaction bytes, a pool rejection. At the RPC boundary they all collapse
//! into one wire error with the JSON-RPC internal-error code and a short,
//! non-identifying message: collaborator detail never leaks to the client.

use vstd::prelude::*;

verus! {

use crate::types::WireError;
use crate::INTERNAL_ERROR_CODE;

/// Why a call failed. The variants are disjoint by construction: every
/// function of the facade states which variant it returns on which inputs.
#[derive(Clone, Copy, Debug, PartialEq, Eq, Structural)]
pub enum RpcError {
    /// The caller asked for a feature that is deliberately out of scope
    /// (historical state queries, tags other than `Latest`, mining and
    /// compiler endpoints).
    UnsupportedFeature,
    /// The canonical head could not be determined.
    ResolutionFailure,
    /// A collaborator query failed.
    QueryFailure,
    /// The raw transaction bytes were not a canonically encoded signed
    /// transaction.
    DecodeFailure,
    /// The pool rejected a well-formed transaction.
    SubmissionFailure,
}

/// The short, non-identifying message reported for each failure.
pub open spec fn message_spec(e: RpcError) -> Seq<char> {
    match e {
        RpcError::UnsupportedFeature => "requested feature is not supported"@,
        RpcError::ResolutionFailure => "fetch header failed"@,
        RpcError::QueryFailure => "runtime query failed"@,
        RpcError::DecodeFailure => "decode transaction failed"@,
        RpcError::SubmissionFailure => "submit transaction to pool failed"@,
    }
}

impl RpcError {
    /// Every failure is reported under the single JSON-RPC internal-error
    /// code: the taxonomy stays small and predictable for clients.
    pub fn code(&self) -> (r: i64)
        ensures
            r == INTERNAL_ERROR_CODE,
    {
        INTERNAL_ERROR_CODE
    }

    /// The message sent with the wire error.
    pub fn message(&self) -> (r: &'static str)
        ensures
            r@ == message_spec(*self),
    {
        match self {
            RpcError::UnsupportedFeature => "requested feature is not supported",
            RpcError::ResolutionFailure => "fetch header failed",
            RpcError::QueryFailure => "runtime query failed",
            RpcError::DecodeFailure => "decode transaction failed",
            RpcError::SubmissionFailure => "submit transaction to pool failed",
        }
    }

    /// The wire representation: the internal-error code, the variant's
    /// message, and no data. Internal detail is deliberately discarded.
    pub fn to_wire(&self) -> (r: WireError)
        ensures
            r.code == INTERNAL_ERROR_CODE,
            r.message@ == message_spec(*self),
            r.data is None,
    {
        WireError { code: self.code(), message: String::from_str(self.message()), data: None }
    }
}

} // verus!
