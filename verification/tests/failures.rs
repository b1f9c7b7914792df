use l402_client::error::{decimal_text, CommandError};

#[test]
fn writes_numbers_in_decimal() {
    assert_eq!(decimal_text(0), "0");
    assert_eq!(decimal_text(7), "7");
    assert_eq!(decimal_text(10), "10");
    assert_eq!(decimal_text(402), "402");
    assert_eq!(decimal_text(1000), "1000");
    assert_eq!(decimal_text(65535), "65535");
    for n in [9u16, 99, 100, 101, 999, 12345, 60000] {
        assert_eq!(decimal_text(n), n.to_string());
    }
}

#[test]
fn a_missing_variable_is_named() {
    assert_eq!(
        CommandError::EnvMissing("MNEMONIC".to_string()).message(),
        "environment variable MNEMONIC is not set or is empty"
    );
}

#[test]
fn every_failure_has_its_line() {
    assert_eq!(
        CommandError::NoChallenge.message(),
        "the server asked for payment without a challenge"
    );
    assert_eq!(
        CommandError::MalformedChallenge.message(),
        "the server's challenge is not a valid L402 challenge"
    );
    assert_eq!(
        CommandError::PaymentFailed("no route".to_string()).message(),
        "the payment failed: no route"
    );
    assert_eq!(
        CommandError::UnexpectedStatus(500).message(),
        "unexpected response status 500"
    );
    assert_eq!(
        CommandError::CredentialRejected.message(),
        "the server rejected the credential"
    );
    assert_eq!(
        CommandError::Transport("connection reset".to_string()).message(),
        "the request failed: connection reset"
    );
    assert_eq!(
        CommandError::UnsupportedLnurl.message(),
        "the LNURL does not offer a withdrawal"
    );
    assert_eq!(
        CommandError::InvalidMnemonic.message(),
        "the mnemonic is not a valid BIP-39 mnemonic"
    );
}
