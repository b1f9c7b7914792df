use l402_client::challenge::{parse_challenge, Challenge};
use l402_client::error::CommandError;
use l402_client::exchange::read_challenge;

fn challenge(token: &str, invoice: &str) -> Result<Challenge, CommandError> {
    Ok(Challenge { token: token.to_string(), invoice: invoice.to_string() })
}

#[test]
fn reads_token_and_invoice() {
    assert_eq!(
        parse_challenge("L402 token=\"abc\", invoice=\"lnbc1...\""),
        challenge("abc", "lnbc1...")
    );
}

#[test]
fn reads_macaroon_like_token() {
    let with_token = parse_challenge("L402 token=\"AGIAJEemVQUTEyNCR0exk7ek90Cg==\", invoice=\"lnbc1500n1pw5kjhm\"");
    let with_macaroon = parse_challenge("L402 macaroon=\"AGIAJEemVQUTEyNCR0exk7ek90Cg==\", invoice=\"lnbc1500n1pw5kjhm\"");
    assert_eq!(with_token, challenge("AGIAJEemVQUTEyNCR0exk7ek90Cg==", "lnbc1500n1pw5kjhm"));
    assert_eq!(with_macaroon, with_token);
}

#[test]
fn refuses_garbage() {
    assert_eq!(parse_challenge("L402 garbage"), Err(CommandError::MalformedChallenge));
}

#[test]
fn refuses_the_empty_header() {
    assert_eq!(parse_challenge(""), Err(CommandError::MalformedChallenge));
}

#[test]
fn reads_empty_values() {
    assert_eq!(parse_challenge("L402 token=\"\", invoice=\"\""), challenge("", ""));
}

#[test]
fn the_scheme_is_literal() {
    for header in [
        "l402 token=\"a\", invoice=\"b\"",
        "LSAT token=\"a\", invoice=\"b\"",
        " L402 token=\"a\", invoice=\"b\"",
        "L402  token=\"a\", invoice=\"b\"",
        "L402\ttoken=\"a\", invoice=\"b\"",
        "L402token=\"a\", invoice=\"b\"",
    ] {
        assert_eq!(parse_challenge(header), Err(CommandError::MalformedChallenge), "{}", header);
    }
}

#[test]
fn the_parameter_names_are_literal() {
    for header in [
        "L402 Token=\"a\", invoice=\"b\"",
        "L402 tokens=\"a\", invoice=\"b\"",
        "L402 macaroons=\"a\", invoice=\"b\"",
        "L402 token=\"a\", Invoice=\"b\"",
        "L402 token=\"a\", token=\"b\"",
        "L402 invoice=\"b\", token=\"a\"",
        "L402 token=a, invoice=b",
        "L402 token = \"a\", invoice=\"b\"",
    ] {
        assert_eq!(parse_challenge(header), Err(CommandError::MalformedChallenge), "{}", header);
    }
}

#[test]
fn the_separator_is_comma_and_one_space() {
    for header in [
        "L402 token=\"a\",invoice=\"b\"",
        "L402 token=\"a\",  invoice=\"b\"",
        "L402 token=\"a\" invoice=\"b\"",
        "L402 token=\"a\"; invoice=\"b\"",
        "L402 token=\"a\" , invoice=\"b\"",
    ] {
        assert_eq!(parse_challenge(header), Err(CommandError::MalformedChallenge), "{}", header);
    }
}

#[test]
fn a_value_must_be_closed() {
    for header in [
        "L402 token=\"a",
        "L402 token=\"a\"",
        "L402 token=\"a\", invoice=\"b",
        "L402 token=\"a\", invoice=\"",
        "L402 token=\"a\", invoice=",
        "L402 token=\"a\", invoice=\"b\\",
    ] {
        assert_eq!(parse_challenge(header), Err(CommandError::MalformedChallenge), "{}", header);
    }
}

#[test]
fn nothing_may_follow_the_invoice() {
    for header in [
        "L402 token=\"a\", invoice=\"b\", invoice=\"c\"",
        "L402 token=\"a\", invoice=\"b\"x",
        "L402 token=\"a\", invoice=\"b\" ",
        "L402 token=\"a\", invoice=\"b\"\n",
        "L402 token=\"a\", invoice=\"b\", realm=\"x\"",
        "L402 token=\"a\", invoice=\"b\"\"",
        "L402 token=\"a\", invoice=\"b\"\"\"",
    ] {
        assert_eq!(parse_challenge(header), Err(CommandError::MalformedChallenge), "{}", header);
    }
}

#[test]
fn a_value_may_end_in_a_backslash() {
    assert_eq!(parse_challenge("L402 token=\"a\\\", invoice=\"b\""), challenge("a\\", "b"));
    assert_eq!(parse_challenge("L402 macaroon=\"a\\\", invoice=\"b\""), challenge("a\\", "b"));
    assert_eq!(parse_challenge("L402 token=\"a\", invoice=\"b\\\""), challenge("a", "b\\"));
    assert_eq!(parse_challenge("L402 token=\"\\\", invoice=\"\\\""), challenge("\\", "\\"));
}

#[test]
fn a_quote_behind_a_backslash_belongs_to_the_value() {
    assert_eq!(
        parse_challenge("L402 token=\"a\\\", invoice=\", invoice=\"z\""),
        challenge("a\\\", invoice=", "z")
    );
    assert_eq!(
        parse_challenge("L402 token=\"a\", invoice=\"b\\\"c\""),
        challenge("a", "b\\\"c")
    );
}

#[test]
fn a_backslash_takes_the_next_character_along() {
    assert_eq!(
        parse_challenge("L402 token=\"a\\\"b\", invoice=\"c\\\\\""),
        challenge("a\\\"b", "c\\\\")
    );
    assert_eq!(
        parse_challenge("L402 token=\"\\\", invoice=\\\"\", invoice=\"x\""),
        challenge("\\\", invoice=\\\"", "x")
    );
}

#[test]
fn a_quote_of_its_own_ends_the_token() {
    assert_eq!(
        parse_challenge("L402 token=\"a\"b\", invoice=\"c\""),
        Err(CommandError::MalformedChallenge)
    );
}

#[test]
fn values_may_hold_any_characters() {
    assert_eq!(
        parse_challenge("L402 token=\"t\u{e9}\u{4e16}\u{1f600} , = \n\", invoice=\"\u{3bb}n\""),
        challenge("t\u{e9}\u{4e16}\u{1f600} , = \n", "\u{3bb}n")
    );
}

#[test]
fn a_missing_header_is_no_challenge() {
    assert_eq!(read_challenge(None), Err(CommandError::NoChallenge));
}

#[test]
fn bytes_that_are_no_text_are_malformed() {
    let bytes: Vec<u8> = vec![b'L', b'4', b'0', b'2', b' ', 0xff, 0xfe];
    assert_eq!(read_challenge(Some(bytes.as_slice())), Err(CommandError::MalformedChallenge));
    let mut broken: Vec<u8> = b"L402 token=\"a".to_vec();
    broken.push(0xc3);
    broken.extend_from_slice(b"\", invoice=\"b\"");
    assert_eq!(read_challenge(Some(broken.as_slice())), Err(CommandError::MalformedChallenge));
}

#[test]
fn a_header_of_bytes_is_read_as_text() {
    let header = "L402 macaroon=\"m\u{e9}\", invoice=\"lnbc20m1\"";
    assert_eq!(read_challenge(Some(header.as_bytes())), challenge("m\u{e9}", "lnbc20m1"));
    assert_eq!(
        read_challenge(Some(b"L402 garbage".as_slice())),
        Err(CommandError::MalformedChallenge)
    );
}
