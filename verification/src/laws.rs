//! The pipeline's stated guarantees, proved over the executor's decision
//! and phase functions: the fixed step order, fail-fast classification, and
//! the absence of format failures on well-formed requests.

use vstd::prelude::*;
use crate::amount::valid_amount;
use crate::executor::{decision, event_fits, next_phase, Decision, Event, Phase};
use crate::fuel::{is_valid_receiver_address, is_valid_secret_key};

verus! {

/// A request whose outside steps all succeed and whose inputs are all
/// well-formed is driven through the fixed order — connect, balance query,
/// submission — and the submission outcome alone decides the response:
/// success, or the submission failure kind; never a format or parsing
/// failure.
pub proof fn lemma_valid_request_reaches_submission(
    key: Seq<char>,
    amount: Seq<char>,
    address: Seq<char>,
    balance: u64,
    submitted: Result<String, String>,
)
    requires
        is_valid_secret_key(key),
        valid_amount(amount),
        is_valid_receiver_address(address),
    ensures
        decision(Phase::Start, Event::Begin, key, amount, address) == Decision::DoConnect,
        next_phase(Phase::Start, Event::Begin, key, amount, address) == Phase::Connecting,
        decision(Phase::Connecting, Event::Connected(Ok(())), key, amount, address)
            == Decision::DoFetchBalance,
        next_phase(Phase::Connecting, Event::Connected(Ok(())), key, amount, address)
            == Phase::FetchingBalance,
        decision(Phase::FetchingBalance, Event::BalanceFetched(Ok(balance)), key, amount, address)
            == Decision::DoSubmit,
        next_phase(Phase::FetchingBalance, Event::BalanceFetched(Ok(balance)), key, amount, address)
            == Phase::Submitting,
        decision(Phase::Submitting, Event::Submitted(submitted), key, amount, address) == (
        if submitted is Ok {
            Decision::FinishSuccess
        } else {
            Decision::FinishSubmissionError
        }),
        next_phase(Phase::Submitting, Event::Submitted(submitted), key, amount, address)
            == Phase::Finished,
{
}

/// A finished pipeline accepts no further event: every response is final
/// and no step can follow it.
pub proof fn lemma_finished_is_terminal()
    ensures
        forall|e: Event| !event_fits(Phase::Finished, e),
{
}

/// An amount with a non-digit character, or one beyond the unsigned 64-bit
/// range, is rejected when the balance arrives: the pipeline finishes with
/// the amount-format kind, so no submission is ever requested for it.
pub proof fn lemma_malformed_amount_is_rejected(
    key: Seq<char>,
    amount: Seq<char>,
    address: Seq<char>,
    balance: u64,
)
    requires
        !valid_amount(amount),
    ensures
        decision(Phase::FetchingBalance, Event::BalanceFetched(Ok(balance)), key, amount, address)
            == Decision::FinishAmountError,
        next_phase(Phase::FetchingBalance, Event::BalanceFetched(Ok(balance)), key, amount, address)
            == Phase::Finished,
        forall|e: Event| !event_fits(Phase::Finished, e),
{
}

/// A receiver address that fails decoding is rejected when the balance
/// arrives, even if the amount is valid: the pipeline finishes with the
/// receiver-address kind, so no submission is ever requested for it.
pub proof fn lemma_bad_address_is_rejected(
    key: Seq<char>,
    amount: Seq<char>,
    address: Seq<char>,
    balance: u64,
)
    requires
        valid_amount(amount),
        !is_valid_receiver_address(address),
    ensures
        decision(Phase::FetchingBalance, Event::BalanceFetched(Ok(balance)), key, amount, address)
            == Decision::FinishAddressError,
        next_phase(Phase::FetchingBalance, Event::BalanceFetched(Ok(balance)), key, amount, address)
            == Phase::Finished,
        forall|e: Event| !event_fits(Phase::Finished, e),
{
}

/// When the network connection cannot be established, the pipeline finishes
/// at once with the network kind: no balance query, no parsing and no
/// submission follows the failed connection attempt.
pub proof fn lemma_connect_failure_stops_pipeline(
    key: Seq<char>,
    amount: Seq<char>,
    address: Seq<char>,
    message: String,
)
    ensures
        decision(Phase::Connecting, Event::Connected(Err(message)), key, amount, address)
            == Decision::FinishNetworkError,
        next_phase(Phase::Connecting, Event::Connected(Err(message)), key, amount, address)
            == Phase::Finished,
        forall|e: Event| !event_fits(Phase::Finished, e),
{
}

} // verus!
