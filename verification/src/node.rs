//! What the commands decide before and after they talk to the Lightning node:
//! the settings that the node is opened with, what is said of the node's events,
//! the requests for an invoice and for the list of payments, and what to
//! withdraw through an LNURL.

use vstd::prelude::*;
use vstd::string::*;
use crate::error::{CommandError, CommandErrorView};
use crate::mnemonic::{derive_seed, is_mnemonic, seed_of, SEED_BYTES};

verus! {

/// The fee, in millisatoshi, below which the node pays routing fees without
/// weighing them against the amount.
pub const EXEMPT_FEE_MSAT: u64 = 50000;

/// How many millisatoshi make a satoshi.
pub const MSAT_PER_SAT: u64 = 1000;

/// The value of an environment variable that must be set: the value where there
/// is one and it is not empty, and `EnvMissing` with the variable's name else.
pub open spec fn env_value(name: Seq<char>, value: Option<Seq<char>>) -> Result<
    Seq<char>,
    CommandErrorView,
> {
    match value {
        Some(v) => if v.len() > 0 {
            Ok(v)
        } else {
            Err(CommandErrorView::EnvMissing(name))
        },
        None => Err(CommandErrorView::EnvMissing(name)),
    }
}

/// Checks the value that the environment holds for the variable `name`, where
/// `None` says that the variable is unset.
pub fn get_env_var(name: &str, value: Option<String>) -> (r: Result<String, CommandError>)
    ensures
        match env_value(
            name@,
            match value {
                Some(v) => Some(v@),
                None => None,
            },
        ) {
            Ok(v) => r is Ok && r->Ok_0@ == v,
            Err(e) => r is Err && r->Err_0@ == e,
        },
{
    match value {
        Some(v) => {
            if v.as_str().is_empty() {
                Err(CommandError::EnvMissing(String::from_str(name)))
            } else {
                Ok(v)
            }
        },
        None => Err(CommandError::EnvMissing(String::from_str(name))),
    }
}

/// What the node is opened with.
#[derive(Debug, Clone, PartialEq, Eq)]
pub struct NodeSettings {
    /// The seed of the wallet, derived from the mnemonic.
    pub seed: Vec<u8>,
    /// The invite code of the node service.
    pub invite_code: String,
    /// The key to the node service's API.
    pub api_key: String,
    /// See [`EXEMPT_FEE_MSAT`].
    pub exemptfee_msat: u64,
}

/// Gathers the settings of the node from the values of the environment
/// variables `MNEMONIC`, `GREENLIGHT_INVITE_CODE` and `BREEZ_API_KEY`, which are
/// looked at in this order: the first that is unset or empty, or the mnemonic
/// that is none, is the error. The seed is that of the mnemonic with an empty
/// passphrase.
pub fn node_settings(
    mnemonic: Option<String>,
    invite_code: Option<String>,
    api_key: Option<String>,
) -> (r: Result<NodeSettings, CommandError>)
    ensures
        match mnemonic {
            Some(phrase) if phrase@.len() > 0 => if !is_mnemonic(phrase@) {
                r is Err && r->Err_0@ == CommandErrorView::InvalidMnemonic
            } else {
                match invite_code {
                    Some(code) if code@.len() > 0 => match api_key {
                        Some(key) if key@.len() > 0 => r is Ok && r->Ok_0.seed@ == seed_of(
                            phrase@,
                            ""@,
                        ) && r->Ok_0.seed@.len() == SEED_BYTES && r->Ok_0.invite_code@ == code@ && r->Ok_0.api_key@ == key@
                            && r->Ok_0.exemptfee_msat == EXEMPT_FEE_MSAT,
                        _ => r is Err && r->Err_0@ == CommandErrorView::EnvMissing(
                            "BREEZ_API_KEY"@,
                        ),
                    },
                    _ => r is Err && r->Err_0@ == CommandErrorView::EnvMissing(
                        "GREENLIGHT_INVITE_CODE"@,
                    ),
                }
            },
            _ => r is Err && r->Err_0@ == CommandErrorView::EnvMissing("MNEMONIC"@),
        },
{
    let phrase = match get_env_var("MNEMONIC", mnemonic) {
        Ok(v) => v,
        Err(e) => { return Err(e); },
    };
    let seed = match derive_seed(phrase.as_str()) {
        Ok(s) => s,
        Err(e) => { return Err(e); },
    };
    let invite_code = match get_env_var("GREENLIGHT_INVITE_CODE", invite_code) {
        Ok(v) => v,
        Err(e) => { return Err(e); },
    };
    let api_key = match get_env_var("BREEZ_API_KEY", api_key) {
        Ok(v) => v,
        Err(e) => { return Err(e); },
    };
    Ok(NodeSettings { seed, invite_code, api_key, exemptfee_msat: EXEMPT_FEE_MSAT })
}

/// What the node reports while it runs.
#[derive(Debug, Clone, Copy, PartialEq, Eq)]
pub enum NodeEvent {
    NewBlock,
    InvoicePaid,
    Synced,
    PaymentSucceed,
    PaymentFailed,
    BackupStarted,
    BackupSucceeded,
    BackupFailed,
}

/// What is said of an event, where anything is said: of an invoice that was
/// paid, and of a payment that succeeded or failed.
pub open spec fn event_text(event: NodeEvent) -> Option<Seq<char>> {
    match event {
        NodeEvent::InvoicePaid => Some("Invoice paid!"@),
        NodeEvent::PaymentSucceed => Some("Paymanet succeded!"@),
        NodeEvent::PaymentFailed => Some("Payment failed!"@),
        _ => None,
    }
}

/// The line to log for an event of the node, if there is one. Events are only
/// ever reported: none of them has a part in what a command does.
pub fn event_message(event: NodeEvent) -> (r: Option<&'static str>)
    ensures
        match event_text(event) {
            Some(text) => r is Some && r->Some_0@ == text,
            None => r is None,
        },
{
    match event {
        NodeEvent::InvoicePaid => Some("Invoice paid!"),
        NodeEvent::PaymentSucceed => Some("Paymanet succeded!"),
        NodeEvent::PaymentFailed => Some("Payment failed!"),
        _ => None,
    }
}

/// The request for an invoice over which to be paid.
#[derive(Debug, Clone, PartialEq, Eq)]
pub struct InvoiceRequest {
    pub amount_sats: u64,
    pub description: String,
}

/// The request for an invoice of `amount_sats` satoshi with the given
/// description. Everything else about the invoice is left to the node.
pub fn invoice_request(amount_sats: u64, description: &str) -> (r: InvoiceRequest)
    ensures
        r.amount_sats == amount_sats,
        r.description@ == description@,
{
    InvoiceRequest { amount_sats, description: String::from_str(description) }
}

/// Which payments a list is to hold, by their direction.
#[derive(Debug, Clone, Copy, PartialEq, Eq, Structural)]
pub enum PaymentFilter {
    All,
    Sent,
    Received,
}

/// The request for a list of past payments.
#[derive(Debug, Clone, Copy, PartialEq, Eq, Structural)]
pub struct PaymentsQuery {
    pub filter: PaymentFilter,
    /// The time from which on payments are listed, in seconds since the epoch.
    pub from_timestamp: Option<i64>,
    /// The time up to which payments are listed, in seconds since the epoch.
    pub to_timestamp: Option<i64>,
    pub include_failures: bool,
}

/// The request for every payment that there is: in both directions, of all
/// times, those that failed among them.
pub fn all_payments() -> (r: PaymentsQuery)
    ensures
        r == (PaymentsQuery {
            filter: PaymentFilter::All,
            from_timestamp: None,
            to_timestamp: None,
            include_failures: true,
        }),
{
    PaymentsQuery {
        filter: PaymentFilter::All,
        from_timestamp: None,
        to_timestamp: None,
        include_failures: true,
    }
}

/// What an LNURL turned out to stand for.
#[derive(Debug, Clone, Copy, PartialEq, Eq, Structural)]
pub enum Lnurl {
    /// An offer to withdraw up to so many millisatoshi.
    Withdraw { max_withdrawable: u64 },
    /// Anything else, and what could not be read at all.
    Other,
}

/// What to do with an LNURL that does not stand for a withdrawal.
#[derive(Debug, Clone, Copy, PartialEq, Eq, Structural)]
pub enum Unsupported {
    /// Do nothing, and let the command succeed.
    Skip,
    /// Let the command fail with `UnsupportedLnurl`.
    Fail,
}

/// A withdrawal to ask of the node.
#[derive(Debug, Clone, PartialEq, Eq)]
pub struct Withdrawal {
    pub amount_sats: u64,
    pub description: String,
}

/// The description that goes with a withdrawal.
pub open spec fn withdrawal_description() -> Seq<char> {
    "Test withdraw"@
}

/// Decides what to withdraw through an LNURL: all that it offers, in whole
/// satoshi, a rest below one satoshi left behind. Where the LNURL offers no
/// withdrawal, `unsupported` says whether that is an error or nothing to do.
pub fn lnurl_withdraw(lnurl: Lnurl, unsupported: Unsupported) -> (r: Result<
    Option<Withdrawal>,
    CommandError,
>)
    ensures
        match lnurl {
            Lnurl::Withdraw { max_withdrawable } => r matches Ok(Some(w)) && w.amount_sats
                == max_withdrawable / MSAT_PER_SAT && w.description@
                == withdrawal_description(),
            Lnurl::Other => match unsupported {
                Unsupported::Skip => r matches Ok(None),
                Unsupported::Fail => r matches Err(e) && e@
                    == CommandErrorView::UnsupportedLnurl,
            },
        },
{
    match lnurl {
        Lnurl::Withdraw { max_withdrawable } => Ok(
            Some(
                Withdrawal {
                    amount_sats: max_withdrawable / MSAT_PER_SAT,
                    description: String::from_str("Test withdraw"),
                },
            ),
        ),
        Lnurl::Other => match unsupported {
            Unsupported::Skip => Ok(None),
            Unsupported::Fail => Err(CommandError::UnsupportedLnurl),
        },
    }
}

} // verus!
