use l402_client::error::CommandError;
use l402_client::mnemonic::{derive_seed, generate_mnemonic, FRESH_WORDS, SEED_BYTES};
use l402_client::node::{
    all_payments, event_message, get_env_var, invoice_request, lnurl_withdraw, node_settings,
    InvoiceRequest, Lnurl, NodeEvent, PaymentFilter, PaymentsQuery, Unsupported, Withdrawal,
    EXEMPT_FEE_MSAT, MSAT_PER_SAT,
};

const PHRASE: &str =
    "abandon abandon abandon abandon abandon abandon abandon abandon abandon abandon abandon about";

const SEED_HEX: &str = "5eb00bbddcf069084889a8ab9155568165f5c453ccb85e70811aaed6f6da5fc1\
9a5ac40b389cd370d086206dec8aa6c43daea6690f20ad3d8d48b2d2ce9e38e4";

fn hex(bytes: &[u8]) -> String {
    let mut out = String::new();
    for b in bytes {
        out.push_str(&format!("{:02x}", b));
    }
    out
}

fn missing(name: &str) -> CommandError {
    CommandError::EnvMissing(name.to_string())
}

fn some(s: &str) -> Option<String> {
    Some(s.to_string())
}

#[test]
fn a_variable_must_be_set_and_not_empty() {
    assert_eq!(get_env_var("MNEMONIC", None), Err(missing("MNEMONIC")));
    assert_eq!(get_env_var("MNEMONIC", some("")), Err(missing("MNEMONIC")));
    assert_eq!(get_env_var("BREEZ_API_KEY", some("k")), Ok("k".to_string()));
    assert_eq!(get_env_var("X", some(" ")), Ok(" ".to_string()));
}

#[test]
fn the_seed_of_a_known_mnemonic() {
    let seed = derive_seed(PHRASE).unwrap();
    assert_eq!(seed.len(), SEED_BYTES);
    assert_eq!(seed.len(), 64);
    assert_eq!(hex(&seed), SEED_HEX);
}

#[test]
fn the_seed_goes_by_the_phrase() {
    let other = "legal winner thank year wave sausage worth useful legal winner thank yellow";
    let seed = derive_seed(other).unwrap();
    assert_eq!(
        hex(&seed),
        "878386efb78845b3355bd15ea4d39ef97d179cb712b77d5c12b6be415fffeffe\
5f377ba02bf3f8544ab800b955e51fbff09828f682052a20faa6addbbddfb096"
    );
    assert_ne!(seed, derive_seed(PHRASE).unwrap());
}

#[test]
fn what_is_no_mnemonic_has_no_seed() {
    assert_eq!(derive_seed(""), Err(CommandError::InvalidMnemonic));
    assert_eq!(derive_seed("abandon"), Err(CommandError::InvalidMnemonic));
    assert_eq!(derive_seed("not a seed phrase at all"), Err(CommandError::InvalidMnemonic));
    let bad_checksum = "abandon abandon abandon abandon abandon abandon abandon abandon abandon abandon abandon abandon";
    assert_eq!(derive_seed(bad_checksum), Err(CommandError::InvalidMnemonic));
}

#[test]
fn a_fresh_mnemonic_has_twelve_words_and_a_seed() {
    assert_eq!(FRESH_WORDS, 12);
    let first = generate_mnemonic();
    let second = generate_mnemonic();
    assert_eq!(first.split(' ').count(), 12);
    assert_eq!(first.matches(' ').count(), 11);
    assert_eq!(second.split_whitespace().count(), 12);
    assert_ne!(first, second);
    assert_eq!(derive_seed(&first).unwrap().len(), 64);
    assert_ne!(derive_seed(&first), derive_seed(&second));
}

#[test]
fn settings_of_a_full_environment() {
    let settings = node_settings(some(PHRASE), some("invite"), some("key")).unwrap();
    assert_eq!(hex(&settings.seed), SEED_HEX);
    assert_eq!(settings.invite_code, "invite");
    assert_eq!(settings.api_key, "key");
    assert_eq!(settings.exemptfee_msat, 50000);
    assert_eq!(EXEMPT_FEE_MSAT, 50000);
}

#[test]
fn the_first_missing_variable_is_the_error() {
    assert_eq!(node_settings(None, None, None), Err(missing("MNEMONIC")));
    assert_eq!(node_settings(some(""), some("i"), some("k")), Err(missing("MNEMONIC")));
    assert_eq!(
        node_settings(some("no mnemonic"), None, None),
        Err(CommandError::InvalidMnemonic)
    );
    assert_eq!(
        node_settings(some(PHRASE), None, None),
        Err(missing("GREENLIGHT_INVITE_CODE"))
    );
    assert_eq!(
        node_settings(some(PHRASE), some(""), some("k")),
        Err(missing("GREENLIGHT_INVITE_CODE"))
    );
    assert_eq!(node_settings(some(PHRASE), some("i"), None), Err(missing("BREEZ_API_KEY")));
    assert_eq!(node_settings(some(PHRASE), some("i"), some("")), Err(missing("BREEZ_API_KEY")));
}

#[test]
fn three_events_are_spoken_of() {
    assert_eq!(event_message(NodeEvent::InvoicePaid), Some("Invoice paid!"));
    assert_eq!(event_message(NodeEvent::PaymentSucceed), Some("Paymanet succeded!"));
    assert_eq!(event_message(NodeEvent::PaymentFailed), Some("Payment failed!"));
    for quiet in [
        NodeEvent::NewBlock,
        NodeEvent::Synced,
        NodeEvent::BackupStarted,
        NodeEvent::BackupSucceeded,
        NodeEvent::BackupFailed,
    ] {
        assert_eq!(event_message(quiet), None);
    }
}

#[test]
fn an_invoice_request_holds_what_it_was_given() {
    assert_eq!(
        invoice_request(21, "coffee"),
        InvoiceRequest { amount_sats: 21, description: "coffee".to_string() }
    );
    assert_eq!(
        invoice_request(u64::MAX, ""),
        InvoiceRequest { amount_sats: u64::MAX, description: String::new() }
    );
}

#[test]
fn the_list_is_of_all_payments() {
    assert_eq!(
        all_payments(),
        PaymentsQuery {
            filter: PaymentFilter::All,
            from_timestamp: None,
            to_timestamp: None,
            include_failures: true,
        }
    );
}

#[test]
fn a_withdrawal_is_of_whole_satoshi() {
    assert_eq!(MSAT_PER_SAT, 1000);
    let plan = |msat: u64| lnurl_withdraw(Lnurl::Withdraw { max_withdrawable: msat }, Unsupported::Fail);
    let withdrawal = |sats: u64| {
        Ok(Some(Withdrawal { amount_sats: sats, description: "Test withdraw".to_string() }))
    };
    assert_eq!(plan(2_500), withdrawal(2));
    assert_eq!(plan(1_000), withdrawal(1));
    assert_eq!(plan(999), withdrawal(0));
    assert_eq!(plan(0), withdrawal(0));
    assert_eq!(plan(u64::MAX), withdrawal(18_446_744_073_709_551));
    assert_eq!(
        lnurl_withdraw(Lnurl::Withdraw { max_withdrawable: 21_000 }, Unsupported::Skip),
        withdrawal(21)
    );
}

#[test]
fn another_lnurl_is_skipped_or_refused() {
    assert_eq!(lnurl_withdraw(Lnurl::Other, Unsupported::Skip), Ok(None));
    assert_eq!(
        lnurl_withdraw(Lnurl::Other, Unsupported::Fail),
        Err(CommandError::UnsupportedLnurl)
    );
}
