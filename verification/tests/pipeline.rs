use fuel_transfer::amount::parse_amount;
use fuel_transfer::errors::{error_response, TransferError};
use fuel_transfer::executor::{Action, Event, Phase, TransferExecutor, TransferPost};
use fuel_transfer::response::explorer_url;

// A syntactically valid bech32m address for the fuel network, and a valid
// (nonzero, in-range) 32-byte hex secret key.
const VALID_ADDRESS: &str = "fuel1dved7k25uxadatl7l5kql309jnw07dcn4t3a6x9hm9nxyjcpqqns50p7n2";
const VALID_KEY: &str = "0000000000000000000000000000000000000000000000000000000000000001";
const NETWORK: &str = "https://testnet.fuel.network";

fn request(address: &str, amount: &str) -> TransferPost {
    TransferPost {
        address: String::from(address),
        network: String::from(NETWORK),
        amount: String::from(amount),
    }
}

#[test]
fn parse_amount_reads_plain_decimals() {
    assert_eq!(parse_amount("0"), Ok(0));
    assert_eq!(parse_amount("1000"), Ok(1000));
    assert_eq!(parse_amount("007"), Ok(7));
    assert_eq!(parse_amount("18446744073709551615"), Ok(u64::MAX));
}

#[test]
fn parse_amount_rejects_empty() {
    assert_eq!(
        parse_amount(""),
        Err(String::from("cannot parse integer from empty string"))
    );
}

#[test]
fn parse_amount_rejects_non_digits() {
    assert_eq!(
        parse_amount("-5"),
        Err(String::from("invalid digit found in string"))
    );
    assert_eq!(
        parse_amount("12x3"),
        Err(String::from("invalid digit found in string"))
    );
    assert_eq!(
        parse_amount(" 5"),
        Err(String::from("invalid digit found in string"))
    );
}

#[test]
fn parse_amount_rejects_overflow() {
    assert_eq!(
        parse_amount("18446744073709551616"),
        Err(String::from("number too large to fit in target type"))
    );
    // The overflow is met before the stray character is reached.
    assert_eq!(
        parse_amount("99999999999999999999x"),
        Err(String::from("number too large to fit in target type"))
    );
}

#[test]
fn parse_amount_matches_std_parsing() {
    for s in ["0", "1000", "18446744073709551615", "18446744073709551616", "", "-5", "12x3"] {
        let ours = parse_amount(s);
        let std_result = s.parse::<u64>().map_err(|e| e.to_string());
        assert_eq!(ours, std_result, "disagreement on {:?}", s);
    }
}

#[test]
fn explorer_url_wraps_the_id() {
    assert_eq!(
        explorer_url("abc123"),
        "https://app.fuel.network/tx/0xabc123/simple"
    );
}

#[test]
fn error_messages_carry_the_kind_prefix() {
    let e = TransferError::NetworkError(String::from("boom"));
    assert_eq!(e.message(), "Network connection error: boom");
    let e = TransferError::InvalidPrivateKey(String::from("bad key"));
    assert_eq!(e.message(), "Invalid private key: bad key");
    let e = TransferError::GetBalanceError(String::from("down"));
    assert_eq!(e.message(), "Failed to get asset balance: down");
    let e = TransferError::InvalidAmountFormat(String::from("nope"));
    assert_eq!(e.message(), "Invalid amount format: nope");
    let e = TransferError::InvalidReceiverAddress(String::from("junk"));
    assert_eq!(e.message(), "Invalid receiver address: junk");
    let e = TransferError::TransactionError(String::from("rejected"));
    assert_eq!(e.message(), "Transaction failed: rejected");
}

#[test]
fn error_response_is_never_successful() {
    let r = error_response(&TransferError::TransactionError(String::from("rejected")));
    assert!(!r.success);
    assert_eq!(r.message, "Transaction failed: rejected");
}

#[test]
fn happy_path_submits_and_succeeds() {
    let mut ex = TransferExecutor::new(request(VALID_ADDRESS, "1000"), String::from(VALID_KEY));
    assert_eq!(ex.phase, Phase::Start);

    let a = ex.advance(Event::Begin);
    match a {
        Action::Connect(n) => assert_eq!(n, NETWORK),
        _ => panic!("expected a connection attempt"),
    }
    assert_eq!(ex.phase, Phase::Connecting);

    let a = ex.advance(Event::Connected(Ok(())));
    assert!(matches!(a, Action::FetchBalance(_)));
    assert_eq!(ex.phase, Phase::FetchingBalance);

    let a = ex.advance(Event::BalanceFetched(Ok(500_000)));
    match a {
        Action::SubmitTransfer(_, amt) => assert_eq!(amt, 1000),
        _ => panic!("expected a submission"),
    }
    assert_eq!(ex.phase, Phase::Submitting);

    let a = ex.advance(Event::Submitted(Ok(String::from("abc123"))));
    match a {
        Action::Finish(Ok(res)) => {
            assert!(res.success);
            assert_eq!(res.tx_id, "abc123");
            assert_eq!(res.explorer_url, "https://app.fuel.network/tx/0xabc123/simple");
        }
        _ => panic!("expected a success response"),
    }
    assert_eq!(ex.phase, Phase::Finished);
}

#[test]
fn bad_address_fails_before_submission() {
    let mut ex = TransferExecutor::new(request("not-an-address", "1000"), String::from(VALID_KEY));
    ex.advance(Event::Begin);
    ex.advance(Event::Connected(Ok(())));
    let a = ex.advance(Event::BalanceFetched(Ok(0)));
    assert!(matches!(
        a,
        Action::Finish(Err(TransferError::InvalidReceiverAddress(_)))
    ));
    assert_eq!(ex.phase, Phase::Finished);
}

#[test]
fn corrupted_checksum_fails_address_decoding() {
    // One character of the valid address changed: the checksum no longer holds.
    let mut bad = String::from(VALID_ADDRESS);
    bad.pop();
    bad.push('3');
    let mut ex = TransferExecutor::new(request(&bad, "1000"), String::from(VALID_KEY));
    ex.advance(Event::Begin);
    ex.advance(Event::Connected(Ok(())));
    let a = ex.advance(Event::BalanceFetched(Ok(0)));
    assert!(matches!(
        a,
        Action::Finish(Err(TransferError::InvalidReceiverAddress(_)))
    ));
}

#[test]
fn negative_amount_fails_before_submission() {
    let mut ex = TransferExecutor::new(request(VALID_ADDRESS, "-5"), String::from(VALID_KEY));
    ex.advance(Event::Begin);
    ex.advance(Event::Connected(Ok(())));
    let a = ex.advance(Event::BalanceFetched(Ok(0)));
    match a {
        Action::Finish(Err(TransferError::InvalidAmountFormat(m))) => {
            assert_eq!(m, "invalid digit found in string");
        }
        _ => panic!("expected an amount-format failure"),
    }
    assert_eq!(ex.phase, Phase::Finished);
}

#[test]
fn amount_is_checked_before_the_address() {
    // Both fields malformed: the fixed step order reports the amount first.
    let mut ex = TransferExecutor::new(request("not-an-address", "-5"), String::from(VALID_KEY));
    ex.advance(Event::Begin);
    ex.advance(Event::Connected(Ok(())));
    let a = ex.advance(Event::BalanceFetched(Ok(0)));
    assert!(matches!(
        a,
        Action::Finish(Err(TransferError::InvalidAmountFormat(_)))
    ));
}

#[test]
fn unreachable_network_stops_the_pipeline() {
    let mut ex = TransferExecutor::new(request(VALID_ADDRESS, "1000"), String::from(VALID_KEY));
    ex.advance(Event::Begin);
    let a = ex.advance(Event::Connected(Err(String::from("connection refused"))));
    match a {
        Action::Finish(Err(TransferError::NetworkError(m))) => {
            assert_eq!(m, "connection refused");
        }
        _ => panic!("expected a network failure"),
    }
    // The pipeline is over: no balance query, parsing, or submission follows.
    assert_eq!(ex.phase, Phase::Finished);
}

#[test]
fn invalid_key_fails_after_connecting() {
    let mut ex = TransferExecutor::new(request(VALID_ADDRESS, "1000"), String::from("not-hex"));
    ex.advance(Event::Begin);
    let a = ex.advance(Event::Connected(Ok(())));
    assert!(matches!(
        a,
        Action::Finish(Err(TransferError::InvalidPrivateKey(_)))
    ));
    assert_eq!(ex.phase, Phase::Finished);
}

#[test]
fn zero_scalar_key_is_rejected() {
    // Well-formed hex, but not a valid scalar for the signing curve.
    let zero_key = "0000000000000000000000000000000000000000000000000000000000000000";
    let mut ex = TransferExecutor::new(request(VALID_ADDRESS, "1000"), String::from(zero_key));
    ex.advance(Event::Begin);
    let a = ex.advance(Event::Connected(Ok(())));
    assert!(matches!(
        a,
        Action::Finish(Err(TransferError::InvalidPrivateKey(_)))
    ));
}

#[test]
fn balance_failure_is_classified() {
    let mut ex = TransferExecutor::new(request(VALID_ADDRESS, "1000"), String::from(VALID_KEY));
    ex.advance(Event::Begin);
    ex.advance(Event::Connected(Ok(())));
    let a = ex.advance(Event::BalanceFetched(Err(String::from("node down"))));
    match a {
        Action::Finish(Err(TransferError::GetBalanceError(m))) => assert_eq!(m, "node down"),
        _ => panic!("expected a balance failure"),
    }
}

#[test]
fn submission_failure_is_classified() {
    let mut ex = TransferExecutor::new(request(VALID_ADDRESS, "1000"), String::from(VALID_KEY));
    ex.advance(Event::Begin);
    ex.advance(Event::Connected(Ok(())));
    ex.advance(Event::BalanceFetched(Ok(10)));
    let a = ex.advance(Event::Submitted(Err(String::from("insufficient funds"))));
    match a {
        Action::Finish(Err(TransferError::TransactionError(m))) => {
            assert_eq!(m, "insufficient funds");
        }
        _ => panic!("expected a submission failure"),
    }
}

#[test]
fn identical_requests_each_submit() {
    // No deduplication: a second identical request runs the whole pipeline
    // again and requests its own submission.
    for _ in 0..2 {
        let mut ex =
            TransferExecutor::new(request(VALID_ADDRESS, "1000"), String::from(VALID_KEY));
        ex.advance(Event::Begin);
        ex.advance(Event::Connected(Ok(())));
        let a = ex.advance(Event::BalanceFetched(Ok(500_000)));
        assert!(matches!(a, Action::SubmitTransfer(_, 1000)));
    }
}
