//! The fixed failure taxonomy of the transfer pipeline and the human-facing
//! message attached to each failure kind.

use vstd::prelude::*;
use vstd::string::StringExecFns;

verus! {

/// A classified failure of one transfer request. Exactly one kind is
/// reported per request: the pipeline stops at its first failing step.
#[derive(Debug, Clone, PartialEq, Eq)]
pub enum TransferError {
    /// The network connection could not be established.
    NetworkError(String),
    /// The configured secret key does not decode to a valid keypair.
    InvalidPrivateKey(String),
    /// The balance lookup against the network failed.
    GetBalanceError(String),
    /// The amount field is not a valid unsigned integer in range.
    InvalidAmountFormat(String),
    /// The receiver address fails the network's address decoding rules.
    InvalidReceiverAddress(String),
    /// The network rejected the signed transfer.
    TransactionError(String),
}

/// The fixed prefix of the human-facing message for each failure kind.
pub open spec fn message_prefix(e: TransferError) -> Seq<char> {
    match e {
        TransferError::NetworkError(_) => "Network connection error: "@,
        TransferError::InvalidPrivateKey(_) => "Invalid private key: "@,
        TransferError::GetBalanceError(_) => "Failed to get asset balance: "@,
        TransferError::InvalidAmountFormat(_) => "Invalid amount format: "@,
        TransferError::InvalidReceiverAddress(_) => "Invalid receiver address: "@,
        TransferError::TransactionError(_) => "Transaction failed: "@,
    }
}

/// The detail text carried inside a failure, whatever its kind.
pub open spec fn message_detail(e: TransferError) -> Seq<char> {
    match e {
        TransferError::NetworkError(m) => m@,
        TransferError::InvalidPrivateKey(m) => m@,
        TransferError::GetBalanceError(m) => m@,
        TransferError::InvalidAmountFormat(m) => m@,
        TransferError::InvalidReceiverAddress(m) => m@,
        TransferError::TransactionError(m) => m@,
    }
}

impl TransferError {
    /// The human-facing message: the kind's fixed prefix followed by the
    /// detail text.
    pub fn message(&self) -> (r: String)
        ensures
            r@ == message_prefix(*self) + message_detail(*self),
    {
        match self {
            TransferError::NetworkError(m) => String::from_str(
                "Network connection error: ",
            ).concat(m.as_str()),
            TransferError::InvalidPrivateKey(m) => String::from_str(
                "Invalid private key: ",
            ).concat(m.as_str()),
            TransferError::GetBalanceError(m) => String::from_str(
                "Failed to get asset balance: ",
            ).concat(m.as_str()),
            TransferError::InvalidAmountFormat(m) => String::from_str(
                "Invalid amount format: ",
            ).concat(m.as_str()),
            TransferError::InvalidReceiverAddress(m) => String::from_str(
                "Invalid receiver address: ",
            ).concat(m.as_str()),
            TransferError::TransactionError(m) => String::from_str(
                "Transaction failed: ",
            ).concat(m.as_str()),
        }
    }
}

/// The response body returned to the HTTP caller on a classified failure.
pub struct TransferErrorRes {
    pub success: bool,
    pub message: String,
}

/// Builds the failure response body: never successful, and carrying the
/// failure's full message.
pub fn error_response(e: &TransferError) -> (r: TransferErrorRes)
    ensures
        !r.success,
        r.message@ == message_prefix(*e) + message_detail(*e),
{
    TransferErrorRes { success: false, message: e.message() }
}

} // verus!
