//! The ways in which a command of this library can fail.

use vstd::prelude::*;
use vstd::string::*;

verus! {

/// A failure of one command. Every failure ends the command: nothing is tried again.
#[derive(Debug, Clone, PartialEq, Eq)]
pub enum CommandError {
    /// A required environment variable is unset or empty; the field is its name.
    EnvMissing(String),
    /// The server asked for payment and sent no challenge header.
    NoChallenge,
    /// A challenge header was sent and is no L402 challenge.
    MalformedChallenge,
    /// The node did not pay, or what it paid was no Lightning payment; the field says why.
    PaymentFailed(String),
    /// A response carried a status that is neither 200 nor 402.
    UnexpectedStatus(u16),
    /// The server asked for payment again although the credential was sent.
    CredentialRejected,
    /// The request did not get through; the field is the HTTP client's account of it.
    Transport(String),
    /// The LNURL that was given does not stand for a withdrawal.
    UnsupportedLnurl,
    /// The seed phrase is no BIP-39 mnemonic.
    InvalidMnemonic,
}

/// The mathematical content of an [`CommandError`].
pub ghost enum CommandErrorView {
    EnvMissing(Seq<char>),
    NoChallenge,
    MalformedChallenge,
    PaymentFailed(Seq<char>),
    UnexpectedStatus(u16),
    CredentialRejected,
    Transport(Seq<char>),
    UnsupportedLnurl,
    InvalidMnemonic,
}

impl View for CommandError {
    type V = CommandErrorView;

    open spec fn view(&self) -> CommandErrorView {
        match self {
            CommandError::EnvMissing(name) => CommandErrorView::EnvMissing(name@),
            CommandError::NoChallenge => CommandErrorView::NoChallenge,
            CommandError::MalformedChallenge => CommandErrorView::MalformedChallenge,
            CommandError::PaymentFailed(reason) => CommandErrorView::PaymentFailed(reason@),
            CommandError::UnexpectedStatus(code) => CommandErrorView::UnexpectedStatus(*code),
            CommandError::CredentialRejected => CommandErrorView::CredentialRejected,
            CommandError::Transport(cause) => CommandErrorView::Transport(cause@),
            CommandError::UnsupportedLnurl => CommandErrorView::UnsupportedLnurl,
            CommandError::InvalidMnemonic => CommandErrorView::InvalidMnemonic,
        }
    }
}

/// The character of a decimal digit.
pub open spec fn digit(d: nat) -> char {
    if d == 0 {
        '0'
    } else if d == 1 {
        '1'
    } else if d == 2 {
        '2'
    } else if d == 3 {
        '3'
    } else if d == 4 {
        '4'
    } else if d == 5 {
        '5'
    } else if d == 6 {
        '6'
    } else if d == 7 {
        '7'
    } else if d == 8 {
        '8'
    } else {
        '9'
    }
}

/// A number written out in decimal digits, without leading zeros.
pub open spec fn decimal(n: nat) -> Seq<char>
    decreases n,
{
    if n < 10 {
        seq![digit(n)]
    } else {
        decimal(n / 10).push(digit(n % 10))
    }
}

/// What the user is told of a failure.
pub open spec fn message_text(e: CommandErrorView) -> Seq<char> {
    match e {
        CommandErrorView::EnvMissing(name) => "environment variable "@ + name
            + " is not set or is empty"@,
        CommandErrorView::NoChallenge => "the server asked for payment without a challenge"@,
        CommandErrorView::MalformedChallenge => "the server's challenge is not a valid L402 challenge"@,
        CommandErrorView::PaymentFailed(reason) => "the payment failed: "@ + reason,
        CommandErrorView::UnexpectedStatus(code) => "unexpected response status "@ + decimal(
            code as nat,
        ),
        CommandErrorView::CredentialRejected => "the server rejected the credential"@,
        CommandErrorView::Transport(cause) => "the request failed: "@ + cause,
        CommandErrorView::UnsupportedLnurl => "the LNURL does not offer a withdrawal"@,
        CommandErrorView::InvalidMnemonic => "the mnemonic is not a valid BIP-39 mnemonic"@,
    }
}

fn digit_text(d: u16) -> (r: &'static str)
    requires
        d < 10,
    ensures
        r@ == seq![digit(d as nat)],
{
    proof {
        reveal_strlit("0");
        reveal_strlit("1");
        reveal_strlit("2");
        reveal_strlit("3");
        reveal_strlit("4");
        reveal_strlit("5");
        reveal_strlit("6");
        reveal_strlit("7");
        reveal_strlit("8");
        reveal_strlit("9");
    }
    let r = if d == 0 {
        "0"
    } else if d == 1 {
        "1"
    } else if d == 2 {
        "2"
    } else if d == 3 {
        "3"
    } else if d == 4 {
        "4"
    } else if d == 5 {
        "5"
    } else if d == 6 {
        "6"
    } else if d == 7 {
        "7"
    } else if d == 8 {
        "8"
    } else {
        "9"
    };
    assert(r@ =~= seq![digit(d as nat)]);
    r
}

/// Writes a number out in decimal digits.
pub fn decimal_text(n: u16) -> (r: String)
    ensures
        r@ == decimal(n as nat),
    decreases n,
{
    if n < 10 {
        String::from_str(digit_text(n))
    } else {
        let mut out = decimal_text(n / 10);
        out.append(digit_text(n % 10));
        assert(out@ =~= decimal(n as nat));
        out
    }
}

impl CommandError {
    /// What the user is told of the failure, in one line. For a variable that
    /// is missing the line names the variable.
    pub fn message(&self) -> (r: String)
        ensures
            r@ == message_text(self@),
    {
        match self {
            CommandError::EnvMissing(name) => {
                let mut out = String::from_str("environment variable ");
                out.append(name.as_str());
                out.append(" is not set or is empty");
                out
            },
            CommandError::NoChallenge => String::from_str(
                "the server asked for payment without a challenge",
            ),
            CommandError::MalformedChallenge => String::from_str(
                "the server's challenge is not a valid L402 challenge",
            ),
            CommandError::PaymentFailed(reason) => {
                let mut out = String::from_str("the payment failed: ");
                out.append(reason.as_str());
                out
            },
            CommandError::UnexpectedStatus(code) => {
                let mut out = String::from_str("unexpected response status ");
                out.append(decimal_text(*code).as_str());
                out
            },
            CommandError::CredentialRejected => String::from_str(
                "the server rejected the credential",
            ),
            CommandError::Transport(cause) => {
                let mut out = String::from_str("the request failed: ");
                out.append(cause.as_str());
                out
            },
            CommandError::UnsupportedLnurl => String::from_str(
                "the LNURL does not offer a withdrawal",
            ),
            CommandError::InvalidMnemonic => String::from_str(
                "the mnemonic is not a valid BIP-39 mnemonic",
            ),
        }
    }
}

} // verus!
