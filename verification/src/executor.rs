//! The per-request transfer pipeline: a state machine that validates the
//! request, builds the session, and classifies every outcome, while a thin
//! driver performs the outside steps (connect, balance query, submission)
//! and hands their results back as events.
//!
//! The step order is fixed: connect, key decode, balance query, amount
//! parse, receiver decode, submission. The pipeline stops at the first
//! failing step and finishes with exactly one response.

use vstd::prelude::*;
use crate::amount::{digits_value, parse_amount, parse_error_message, valid_amount};
use crate::errors::TransferError;
use crate::fuel::{
    decode_receiver_address, decode_secret_key, is_valid_receiver_address, is_valid_secret_key,
};
use crate::response::{explorer_url_spec, success_response, TransferRes};
use fuel_crypto::SecretKey;
use fuels_core::types::bech32::Bech32Address;

verus! {

/// The request payload for one transfer: receiver address, target network,
/// and amount in the asset's smallest unit as decimal text.
pub struct TransferPost {
    pub address: String,
    pub network: String,
    pub amount: String,
}

/// Progress of one request through the pipeline's fixed step order.
#[derive(Debug, Clone, Copy, PartialEq, Eq, Structural)]
pub enum Phase {
    /// No step has been taken yet.
    Start,
    /// The connection attempt was requested.
    Connecting,
    /// The session is built; the balance query was requested.
    FetchingBalance,
    /// Amount and receiver are validated; the submission was requested.
    Submitting,
    /// A response was produced; the request is over.
    Finished,
}

/// The outcome of one outside step, handed back to the executor. Error
/// payloads carry the underlying transport message.
pub enum Event {
    /// Start the pipeline.
    Begin,
    /// Outcome of the connection attempt.
    Connected(Result<(), String>),
    /// Outcome of the balance query, in the asset's smallest unit.
    BalanceFetched(Result<u64, String>),
    /// Outcome of the submission: the transaction identifier as hex text.
    Submitted(Result<String, String>),
}

/// The next outside step the driver must perform, or the final response.
pub enum Action {
    /// Connect to the named network.
    Connect(String),
    /// Derive the wallet from this keypair and query its base-asset balance.
    FetchBalance(SecretKey),
    /// Submit a transfer of the amount to the receiver, signed by the
    /// session wallet, under default transaction policies.
    SubmitTransfer(Bech32Address, u64),
    /// Return this response to the caller; the pipeline is over.
    Finish(Result<TransferRes, TransferError>),
}

/// Which events a phase is waiting for. The executor accepts an event only
/// in the phase whose outside step it answers; `Finished` accepts none.
pub open spec fn event_fits(p: Phase, e: Event) -> bool {
    match (p, e) {
        (Phase::Start, Event::Begin) => true,
        (Phase::Connecting, Event::Connected(_)) => true,
        (Phase::FetchingBalance, Event::BalanceFetched(_)) => true,
        (Phase::Submitting, Event::Submitted(_)) => true,
        _ => false,
    }
}

/// What the pipeline decides on one event: the next outside step to
/// request, or the kind of response it finishes with.
#[derive(PartialEq, Eq, Structural)]
pub enum Decision {
    /// Request the connection attempt.
    DoConnect,
    /// Request the balance query.
    DoFetchBalance,
    /// Request the submission.
    DoSubmit,
    /// Finish with the success record.
    FinishSuccess,
    /// Finish with `NetworkError`.
    FinishNetworkError,
    /// Finish with `InvalidPrivateKey`.
    FinishKeyError,
    /// Finish with `GetBalanceError`.
    FinishBalanceError,
    /// Finish with `InvalidAmountFormat`.
    FinishAmountError,
    /// Finish with `InvalidReceiverAddress`.
    FinishAddressError,
    /// Finish with `TransactionError`.
    FinishSubmissionError,
}

/// The pipeline's decision for an event that fits the phase, over the
/// configured key and the request's amount and address text.
pub open spec fn decision(
    p: Phase,
    e: Event,
    key: Seq<char>,
    amount: Seq<char>,
    address: Seq<char>,
) -> Decision {
    match (p, e) {
        (Phase::Start, Event::Begin) => Decision::DoConnect,
        (Phase::Connecting, Event::Connected(r)) => match r {
            Ok(_) => if is_valid_secret_key(key) {
                Decision::DoFetchBalance
            } else {
                Decision::FinishKeyError
            },
            Err(_) => Decision::FinishNetworkError,
        },
        (Phase::FetchingBalance, Event::BalanceFetched(r)) => match r {
            Ok(_) => if !valid_amount(amount) {
                Decision::FinishAmountError
            } else if !is_valid_receiver_address(address) {
                Decision::FinishAddressError
            } else {
                Decision::DoSubmit
            },
            Err(_) => Decision::FinishBalanceError,
        },
        (Phase::Submitting, Event::Submitted(r)) => if r is Ok {
            Decision::FinishSuccess
        } else {
            Decision::FinishSubmissionError
        },
        _ => Decision::DoConnect,
    }
}

/// The phase after an event: a step decision moves the pipeline to the
/// phase awaiting that step's outcome; a finish decision ends it.
pub open spec fn next_phase(
    p: Phase,
    e: Event,
    key: Seq<char>,
    amount: Seq<char>,
    address: Seq<char>,
) -> Phase {
    match decision(p, e, key, amount, address) {
        Decision::DoConnect => Phase::Connecting,
        Decision::DoFetchBalance => Phase::FetchingBalance,
        Decision::DoSubmit => Phase::Submitting,
        _ => Phase::Finished,
    }
}

/// One request's pipeline: the payload, the configured secret key text,
/// and the phase reached so far. Built fresh per request and never reused.
pub struct TransferExecutor {
    pub request: TransferPost,
    pub key: String,
    pub phase: Phase,
}

impl TransferExecutor {
    /// A fresh pipeline for one request, before any step is taken.
    pub fn new(request: TransferPost, key: String) -> (r: TransferExecutor)
        ensures
            r.request == request,
            r.key == key,
            r.phase == Phase::Start,
    {
        TransferExecutor { request, key, phase: Phase::Start }
    }

    /// Feeds the outcome of the last outside step to the pipeline and
    /// returns the next step to perform, or the final response.
    ///
    /// The returned action follows the pipeline's decision exactly: each
    /// failing step finishes with its own kind, carrying the step's message;
    /// a successful submission finishes with the success record and the
    /// derived explorer link.
    pub fn advance(&mut self, event: Event) -> (action: Action)
        requires
            event_fits(old(self).phase, event),
        ensures
            final(self).request == old(self).request,
            final(self).key == old(self).key,
            final(self).phase == next_phase(
                old(self).phase,
                event,
                old(self).key@,
                old(self).request.amount@,
                old(self).request.address@,
            ),
            ({
                let d = decision(
                    old(self).phase,
                    event,
                    old(self).key@,
                    old(self).request.amount@,
                    old(self).request.address@,
                );
                match action {
                    Action::Connect(n) => d == Decision::DoConnect && n@ == old(
                        self,
                    ).request.network@,
                    Action::FetchBalance(_) => d == Decision::DoFetchBalance,
                    Action::SubmitTransfer(_, amt) => d == Decision::DoSubmit && amt
                        == digits_value(old(self).request.amount@),
                    Action::Finish(res) => match res {
                        Ok(out) => {
                            &&& d == Decision::FinishSuccess
                            &&& out.success
                            &&& event matches Event::Submitted(Ok(tx)) && out.tx_id@ == tx@
                                && out.explorer_url@ == explorer_url_spec(tx@)
                        },
                        Err(err) => match err {
                            TransferError::NetworkError(m) => d == Decision::FinishNetworkError
                                && (event matches Event::Connected(Err(em)) && m@ == em@),
                            TransferError::InvalidPrivateKey(_) => d == Decision::FinishKeyError,
                            TransferError::GetBalanceError(m) => d == Decision::FinishBalanceError
                                && (event matches Event::BalanceFetched(Err(em)) && m@ == em@),
                            TransferError::InvalidAmountFormat(m) => d
                                == Decision::FinishAmountError && m@ == parse_error_message(
                                old(self).request.amount@,
                            ),
                            TransferError::InvalidReceiverAddress(_) => d
                                == Decision::FinishAddressError,
                            TransferError::TransactionError(m) => d
                                == Decision::FinishSubmissionError && (event
                                matches Event::Submitted(Err(em)) && m@ == em@),
                        },
                    },
                }
            }),
    {
        let p = self.phase;
        match (p, event) {
            (Phase::Start, Event::Begin) => {
                self.phase = Phase::Connecting;
                Action::Connect(self.request.network.clone())
            },
            (Phase::Connecting, Event::Connected(r)) => match r {
                Ok(_) => match decode_secret_key(self.key.as_str()) {
                    Ok(sk) => {
                        self.phase = Phase::FetchingBalance;
                        Action::FetchBalance(sk)
                    },
                    Err(m) => {
                        self.phase = Phase::Finished;
                        Action::Finish(Err(TransferError::InvalidPrivateKey(m)))
                    },
                },
                Err(m) => {
                    self.phase = Phase::Finished;
                    Action::Finish(Err(TransferError::NetworkError(m)))
                },
            },
            (Phase::FetchingBalance, Event::BalanceFetched(r)) => match r {
                // The balance is informational only: the authoritative
                // sufficiency check happens during submission.
                Ok(_balance) => match parse_amount(self.request.amount.as_str()) {
                    Err(m) => {
                        self.phase = Phase::Finished;
                        Action::Finish(Err(TransferError::InvalidAmountFormat(m)))
                    },
                    Ok(amt) => match decode_receiver_address(self.request.address.as_str()) {
                        Err(m) => {
                            self.phase = Phase::Finished;
                            Action::Finish(Err(TransferError::InvalidReceiverAddress(m)))
                        },
                        Ok(receiver) => {
                            self.phase = Phase::Submitting;
                            Action::SubmitTransfer(receiver, amt)
                        },
                    },
                },
                Err(m) => {
                    self.phase = Phase::Finished;
                    Action::Finish(Err(TransferError::GetBalanceError(m)))
                },
            },
            (Phase::Submitting, Event::Submitted(r)) => {
                self.phase = Phase::Finished;
                match r {
                    Ok(tx) => Action::Finish(Ok(success_response(tx))),
                    Err(m) => Action::Finish(Err(TransferError::TransactionError(m))),
                }
            },
            // Every fitting phase/event pair is handled above.
            _ => vstd::pervasive::unreached(),
        }
    }
}

} // verus!
