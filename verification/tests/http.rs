use l402_client::http::{names_match, Header, Response};

fn header(name: &str, value: &[u8]) -> Header {
    Header { name: name.to_string(), value: value.to_vec() }
}

#[test]
fn names_differ_at_most_in_case() {
    assert!(names_match("WWW-Authenticate", "www-authenticate"));
    assert!(names_match("WWW-AUTHENTICATE", "Www-Authenticate"));
    assert!(names_match("", ""));
    assert!(!names_match("WWW-Authenticate", "WWW-Authenticat"));
    assert!(!names_match("WWW-Authenticate", "WWW_Authenticate"));
    assert!(!names_match("a", ""));
}

#[test]
fn only_ascii_letters_lose_their_case() {
    assert!(!names_match("@", "`"));
    assert!(!names_match("[", "{"));
    assert!(!names_match("\u{c9}", "\u{e9}"));
    assert!(names_match("Z9-\u{e9}", "z9-\u{e9}"));
}

#[test]
fn looks_a_header_up_without_regard_to_case() {
    let response = Response {
        status: 402,
        headers: vec![header("Content-Type", b"text/plain"), header("www-authenticate", b"L402 x")],
        body: String::new(),
    };
    assert_eq!(response.header("WWW-Authenticate"), Some(&b"L402 x".to_vec()));
    assert_eq!(response.header("content-type"), Some(&b"text/plain".to_vec()));
    assert_eq!(response.header("Authorization"), None);
}

#[test]
fn the_first_of_two_headers_counts() {
    let response = Response {
        status: 402,
        headers: vec![
            header("X-Other", b"0"),
            header("WWW-Authenticate", b"first"),
            header("www-authenticate", b"second"),
        ],
        body: String::new(),
    };
    assert_eq!(response.header("WWW-AUTHENTICATE"), Some(&b"first".to_vec()));
}

#[test]
fn no_headers_no_value() {
    let response = Response { status: 200, headers: vec![], body: "ok".to_string() };
    assert_eq!(response.header("WWW-Authenticate"), None);
}
