//! The exchange with a server that sells its answers: ask; where the server asks
//! for payment, read its challenge and have the invoice paid; then ask once more,
//! with the credential that proves the payment.
//!
//! The library decides and the caller acts. Each step takes what the outside
//! world answered (the HTTP client or the Lightning node) and says what is to be
//! done next. A step consumes the state it is called on, so that no step of an
//! exchange can be taken twice, and the request of the second attempt exists only
//! as the result of a payment that succeeded.

use vstd::prelude::*;
use vstd::string::*;
use crate::challenge::{challenge_of, parse_challenge, Challenge, ChallengeView};
use crate::credential::{credential, credential_text};
use crate::error::{CommandError, CommandErrorView};
use crate::http::{header_of, Response, ResponseView};
use crate::text::{decode, text_of};

verus! {

/// The status of a response that is the answer asked for.
pub const STATUS_OK: u16 = 200;

/// The status of a response that asks for payment.
pub const STATUS_PAYMENT_REQUIRED: u16 = 402;

/// A POST that the caller is to send: the body as JSON, and the `Authorization`
/// header where one is given. No other header of an earlier attempt goes along.
#[derive(Debug, Clone, PartialEq, Eq)]
pub struct Request {
    pub url: String,
    pub body: Vec<u8>,
    pub authorization: Option<String>,
}

/// The mathematical content of a [`Request`].
pub ghost struct RequestView {
    pub url: Seq<char>,
    pub body: Seq<u8>,
    pub authorization: Option<Seq<char>>,
}

impl View for Request {
    type V = RequestView;

    open spec fn view(&self) -> RequestView {
        RequestView {
            url: self.url@,
            body: self.body@,
            authorization: match self.authorization {
                Some(a) => Some(a@),
                None => None,
            },
        }
    }
}

/// What the node reports of a payment that it made.
#[derive(Debug, Clone, PartialEq, Eq)]
pub enum PaymentOutcome {
    /// A Lightning payment, with the preimage that the payee revealed.
    Lightning { preimage: String },
    /// A payment of any other kind: it carries no preimage.
    Other,
}

/// The mathematical content of a [`PaymentOutcome`].
pub ghost enum PaymentOutcomeView {
    Lightning { preimage: Seq<char> },
    Other,
}

impl View for PaymentOutcome {
    type V = PaymentOutcomeView;

    open spec fn view(&self) -> PaymentOutcomeView {
        match self {
            PaymentOutcome::Lightning { preimage } => PaymentOutcomeView::Lightning {
                preimage: preimage@,
            },
            PaymentOutcome::Other => PaymentOutcomeView::Other,
        }
    }
}

/// What the HTTP client answered, as values: the response, or its account of why
/// there is none.
pub open spec fn reply_view(reply: Result<Response, String>) -> Result<ResponseView, Seq<char>> {
    match reply {
        Ok(response) => Ok(response@),
        Err(cause) => Err(cause@),
    }
}

/// What the node answered, as values: the outcome, or its account of why the
/// payment failed.
pub open spec fn payment_view(outcome: Result<PaymentOutcome, String>) -> Result<
    PaymentOutcomeView,
    Seq<char>,
> {
    match outcome {
        Ok(paid) => Ok(paid@),
        Err(cause) => Err(cause@),
    }
}

/// The reason given where the node paid, but not over Lightning.
pub open spec fn no_preimage_reason() -> Seq<char> {
    "the payment carries no preimage"@
}

/// The challenge in the value of a `WWW-Authenticate` header: none where the
/// header is missing, a malformed one where its bytes are no UTF-8 text or the
/// text is no challenge.
pub open spec fn challenge_in(value: Option<Seq<u8>>) -> Result<ChallengeView, CommandErrorView> {
    match value {
        None => Err(CommandErrorView::NoChallenge),
        Some(bytes) => match text_of(bytes) {
            None => Err(CommandErrorView::MalformedChallenge),
            Some(text) => match challenge_of(text) {
                None => Err(CommandErrorView::MalformedChallenge),
                Some(c) => Ok(c),
            },
        },
    }
}

/// What the first response decides.
pub ghost enum FirstStepView {
    /// The server answered without asking for payment.
    Done(ResponseView),
    /// The server asks for payment of `invoice`, under `token`.
    Pay { token: Seq<char>, invoice: Seq<char> },
    /// The exchange has failed.
    Failed(CommandErrorView),
}

/// The decision on the answer to the first request: a response with status 200
/// is the result; one with status 402 must carry a challenge, whose invoice is
/// then to be paid; any other status, and a request that did not get through,
/// ends the exchange.
pub open spec fn first_step(reply: Result<ResponseView, Seq<char>>) -> FirstStepView {
    match reply {
        Err(cause) => FirstStepView::Failed(CommandErrorView::Transport(cause)),
        Ok(response) => if response.status == STATUS_OK {
            FirstStepView::Done(response)
        } else if response.status == STATUS_PAYMENT_REQUIRED {
            match challenge_in(header_of(response.headers, "WWW-Authenticate"@)) {
                Ok(c) => FirstStepView::Pay { token: c.token, invoice: c.invoice },
                Err(e) => FirstStepView::Failed(e),
            }
        } else {
            FirstStepView::Failed(CommandErrorView::UnexpectedStatus(response.status))
        },
    }
}

/// The decision on the node's answer: the credential for the second attempt
/// where a Lightning payment was made, and a failed payment in every other case.
pub open spec fn payment_step(
    token: Seq<char>,
    outcome: Result<PaymentOutcomeView, Seq<char>>,
) -> Result<Seq<char>, CommandErrorView> {
    match outcome {
        Ok(PaymentOutcomeView::Lightning { preimage }) => Ok(credential_text(token, preimage)),
        Ok(PaymentOutcomeView::Other) => Err(CommandErrorView::PaymentFailed(no_preimage_reason())),
        Err(cause) => Err(CommandErrorView::PaymentFailed(cause)),
    }
}

/// The decision on the answer to the second request: a response with status 200
/// is the result; status 402 means that the server did not take the credential.
pub open spec fn retry_step(reply: Result<ResponseView, Seq<char>>) -> Result<
    ResponseView,
    CommandErrorView,
> {
    match reply {
        Err(cause) => Err(CommandErrorView::Transport(cause)),
        Ok(response) => if response.status == STATUS_OK {
            Ok(response)
        } else if response.status == STATUS_PAYMENT_REQUIRED {
            Err(CommandErrorView::CredentialRejected)
        } else {
            Err(CommandErrorView::UnexpectedStatus(response.status))
        },
    }
}

/// What the outside world would answer in the course of one exchange: the server
/// to the first request, the node to the payment, the server to the second
/// request. An answer that is never asked for plays no part.
pub ghost struct World {
    pub first: Result<ResponseView, Seq<char>>,
    pub payment: Result<PaymentOutcomeView, Seq<char>>,
    pub retry: Result<ResponseView, Seq<char>>,
}

/// Something that the caller is told to do to the outside world.
pub ghost enum Act {
    /// Send this request.
    Post(RequestView),
    /// Have this invoice paid.
    Pay(Seq<char>),
}

/// One exchange from its start to its end: what was done to the outside world,
/// in order, and what came of it.
pub ghost struct Run {
    pub acts: Seq<Act>,
    pub result: Result<ResponseView, CommandErrorView>,
}

/// The exchange for `url` and `body` in a world that answers as `world` says:
/// the steps of this module taken one after the other, each on the answer to
/// what the step before asked for.
pub open spec fn run(url: Seq<char>, body: Seq<u8>, world: World) -> Run {
    let first = Act::Post(RequestView { url, body, authorization: None });
    match first_step(world.first) {
        FirstStepView::Done(response) => Run { acts: seq![first], result: Ok(response) },
        FirstStepView::Failed(e) => Run { acts: seq![first], result: Err(e) },
        FirstStepView::Pay { token, invoice } => match payment_step(token, world.payment) {
            Err(e) => Run { acts: seq![first, Act::Pay(invoice)], result: Err(e) },
            Ok(credential) => Run {
                acts: seq![
                    first,
                    Act::Pay(invoice),
                    Act::Post(RequestView { url, body, authorization: Some(credential) }),
                ],
                result: retry_step(world.retry),
            },
        },
    }
}

/// How many requests were sent.
pub open spec fn posts(acts: Seq<Act>) -> nat
    decreases acts.len(),
{
    if acts.len() == 0 {
        0
    } else {
        posts(acts.drop_last()) + if acts.last() is Post {
            1nat
        } else {
            0nat
        }
    }
}

/// How many payments were asked of the node.
pub open spec fn payments(acts: Seq<Act>) -> nat
    decreases acts.len(),
{
    if acts.len() == 0 {
        0
    } else {
        payments(acts.drop_last()) + if acts.last() is Pay {
            1nat
        } else {
            0nat
        }
    }
}

/// The server asks for payment, and says for what: its first answer has status
/// 402 and carries a challenge.
pub open spec fn asks_for_payment(reply: Result<ResponseView, Seq<char>>) -> bool {
    reply matches Ok(response) && response.status == STATUS_PAYMENT_REQUIRED && challenge_in(
        header_of(response.headers, "WWW-Authenticate"@),
    ) is Ok
}

/// Every request of an exchange goes to the address and carries the body that
/// the exchange was started with: the second attempt sends, byte for byte, what
/// the first one sent.
pub proof fn law_body_is_kept(url: Seq<char>, body: Seq<u8>, world: World, i: int)
    requires
        0 <= i < run(url, body, world).acts.len(),
        run(url, body, world).acts[i] is Post,
    ensures
        run(url, body, world).acts[i]->Post_0.body == body,
        run(url, body, world).acts[i]->Post_0.url == url,
{
}

/// The credential that an exchange sends is `L402`, a space, the token of the
/// challenge, a colon, and the preimage that the node reported: a request with an
/// `Authorization` header carries exactly that, made of the challenge in the
/// first answer and of the node's answer.
pub proof fn law_credential_is_composed(url: Seq<char>, body: Seq<u8>, world: World, i: int)
    requires
        0 <= i < run(url, body, world).acts.len(),
        run(url, body, world).acts[i] matches Act::Post(request) && request.authorization
            is Some,
    ensures
        first_step(world.first) is Pay,
        world.payment matches Ok(PaymentOutcomeView::Lightning { .. }),
        run(url, body, world).acts[i]->Post_0.authorization == Some(
            credential_text(
                first_step(world.first)->Pay_token,
                world.payment->Ok_0->Lightning_preimage,
            ),
        ),
{
}

/// The second request waits for the payment. A request with a credential is the
/// third thing an exchange does; the payment stands right before it, and the node
/// has answered that payment with a Lightning payment. Where the node answers
/// anything else, the first request stays the only one.
pub proof fn law_retry_follows_payment(url: Seq<char>, body: Seq<u8>, world: World)
    ensures
        forall|i: int|
            0 <= i < run(url, body, world).acts.len() && (#[trigger] run(
                url,
                body,
                world,
            ).acts[i] matches Act::Post(request) && request.authorization is Some) ==> i == 2
                && run(url, body, world).acts[1] is Pay
                && world.payment matches Ok(PaymentOutcomeView::Lightning { .. }),
        !(world.payment matches Ok(PaymentOutcomeView::Lightning { .. })) ==> posts(
            run(url, body, world).acts,
        ) == 1,
{
    let acts = run(url, body, world).acts;
    reveal_with_fuel(posts, 4);
    if acts.len() == 1 {
        assert(acts.drop_last().len() == 0);
    } else if acts.len() == 2 {
        assert(acts.drop_last().drop_last().len() == 0);
    }
}

/// An exchange sends at most two requests. The first thing it does is to send
/// the request without a credential, and it does at most three things in all.
pub proof fn law_at_most_two_posts(url: Seq<char>, body: Seq<u8>, world: World)
    ensures
        posts(run(url, body, world).acts) <= 2,
        1 <= run(url, body, world).acts.len() <= 3,
        run(url, body, world).acts[0] == Act::Post(
            RequestView { url, body, authorization: None },
        ),
{
    let acts = run(url, body, world).acts;
    reveal_with_fuel(posts, 4);
    if acts.len() == 1 {
        assert(acts.drop_last().len() == 0);
    } else if acts.len() == 2 {
        assert(acts.drop_last().drop_last().len() == 0);
    } else {
        assert(acts.drop_last().drop_last().drop_last().len() == 0);
    }
}

/// The first answer decides whether the node is asked to pay. Where the server
/// answers with status 200, no payment is asked for. Where it asks for payment
/// and says for what, exactly one payment is asked for, and it is that of the
/// invoice in the challenge. In no exchange is more than one payment asked for.
pub proof fn law_status_gates_payment(url: Seq<char>, body: Seq<u8>, world: World)
    ensures
        (world.first matches Ok(response) && response.status == STATUS_OK) ==> payments(
            run(url, body, world).acts,
        ) == 0,
        asks_for_payment(world.first) ==> payments(run(url, body, world).acts) == 1 && run(
            url,
            body,
            world,
        ).acts[1] == Act::Pay(
            challenge_in(
                header_of(world.first->Ok_0.headers, "WWW-Authenticate"@),
            )->Ok_0.invoice,
        ),
        !asks_for_payment(world.first) ==> payments(run(url, body, world).acts) == 0,
        payments(run(url, body, world).acts) <= 1,
{
    let acts = run(url, body, world).acts;
    reveal_with_fuel(payments, 4);
    if acts.len() == 1 {
        assert(acts.drop_last().len() == 0);
    } else if acts.len() == 2 {
        assert(acts.drop_last().drop_last().len() == 0);
    } else {
        assert(acts.drop_last().drop_last().drop_last().len() == 0);
    }
}

/// Reads the challenge out of the value of a `WWW-Authenticate` header, where
/// `None` says that the response had no such header.
pub fn read_challenge(value: Option<&[u8]>) -> (r: Result<Challenge, CommandError>)
    ensures
        match challenge_in(
            match value {
                Some(bytes) => Some(bytes@),
                None => None,
            },
        ) {
            Ok(c) => r is Ok && r->Ok_0@ == c,
            Err(e) => r is Err && r->Err_0@ == e,
        },
{
    match value {
        None => Err(CommandError::NoChallenge),
        Some(bytes) => match decode(bytes) {
            None => Err(CommandError::MalformedChallenge),
            Some(text) => parse_challenge(text),
        },
    }
}

/// An exchange whose first request is on its way.
#[derive(Debug, PartialEq, Eq)]
pub struct Exchange {
    url: String,
    body: Vec<u8>,
}

/// An exchange that waits for the node to pay the invoice of the challenge.
#[derive(Debug, PartialEq, Eq)]
pub struct PendingPayment {
    url: String,
    body: Vec<u8>,
    token: String,
}

/// An exchange whose second request is on its way. There is one only where a
/// payment was settled.
#[derive(Debug, PartialEq, Eq)]
pub struct PendingRetry {
    _settled: (),
}

/// What is to be done after the first response.
#[derive(Debug, PartialEq, Eq)]
pub enum FirstStep {
    /// The server answered without asking for payment: this is the result.
    Done(Response),
    /// The invoice is to be paid through the node, and the node's answer handed
    /// to `pending`.
    Pay { pending: PendingPayment, invoice: String },
    /// The exchange has failed.
    Failed(CommandError),
}

/// What is to be done after the node's answer.
#[derive(Debug, PartialEq, Eq)]
pub enum PaymentStep {
    /// The request is to be sent, and the server's answer handed to `pending`.
    Retry { pending: PendingRetry, request: Request },
    /// The exchange has failed; nothing more is to be sent.
    Failed(CommandError),
}

impl PendingPayment {
    /// The address that the exchange posts to.
    pub closed spec fn url(&self) -> Seq<char> {
        self.url@
    }

    /// The body that the exchange posts.
    pub closed spec fn body(&self) -> Seq<u8> {
        self.body@
    }

    /// The token of the challenge that is being paid for.
    pub closed spec fn token(&self) -> Seq<char> {
        self.token@
    }

    /// Takes the node's answer to the payment. Where a Lightning payment was
    /// made, the second request is due: to the same address, with the same body,
    /// and with the credential made of the token and the preimage. In every other
    /// case the exchange fails, and no request is made.
    pub fn settled(self, outcome: Result<PaymentOutcome, String>) -> (r: PaymentStep)
        ensures
            match payment_step(self.token(), payment_view(outcome)) {
                Ok(credential) => r matches PaymentStep::Retry { pending, request }
                    && request@ == (RequestView {
                    url: self.url(),
                    body: self.body(),
                    authorization: Some(credential),
                }),
                Err(e) => r matches PaymentStep::Failed(error) && error@ == e,
            },
    {
        match outcome {
            Ok(PaymentOutcome::Lightning { preimage }) => {
                let header = credential(self.token.as_str(), preimage.as_str());
                let request = Request {
                    url: self.url,
                    body: self.body,
                    authorization: Some(header),
                };
                PaymentStep::Retry { pending: PendingRetry { _settled: () }, request }
            },
            Ok(PaymentOutcome::Other) => PaymentStep::Failed(
                CommandError::PaymentFailed(String::from_str("the payment carries no preimage")),
            ),
            Err(cause) => PaymentStep::Failed(CommandError::PaymentFailed(cause)),
        }
    }
}

impl PendingRetry {
    /// Takes the answer to the second request, which ends the exchange: there is
    /// no third request, whatever the server says.
    pub fn finish(self, reply: Result<Response, String>) -> (r: Result<Response, CommandError>)
        ensures
            match retry_step(reply_view(reply)) {
                Ok(response) => r is Ok && r->Ok_0@ == response,
                Err(e) => r is Err && r->Err_0@ == e,
            },
    {
        match reply {
            Err(cause) => Err(CommandError::Transport(cause)),
            Ok(response) => {
                if response.status == STATUS_OK {
                    Ok(response)
                } else if response.status == STATUS_PAYMENT_REQUIRED {
                    Err(CommandError::CredentialRejected)
                } else {
                    Err(CommandError::UnexpectedStatus(response.status))
                }
            },
        }
    }
}

impl Exchange {
    /// The address that the exchange posts to.
    pub closed spec fn url(&self) -> Seq<char> {
        self.url@
    }

    /// The body that the exchange posts.
    pub closed spec fn body(&self) -> Seq<u8> {
        self.body@
    }

    /// Begins an exchange: the first request goes to `url` with `body`, and
    /// without an `Authorization` header.
    pub fn start(url: String, body: Vec<u8>) -> (r: (Exchange, Request))
        ensures
            r.0.url() == url@,
            r.0.body() == body@,
            r.1@ == (RequestView { url: url@, body: body@, authorization: None }),
    {
        let request = Request { url: url.clone(), body: body.clone(), authorization: None };
        (Exchange { url, body }, request)
    }

    /// Takes the answer to the first request.
    pub fn first_response(self, reply: Result<Response, String>) -> (r: FirstStep)
        ensures
            match first_step(reply_view(reply)) {
                FirstStepView::Done(response) => r matches FirstStep::Done(got) && got@
                    == response,
                FirstStepView::Pay { token, invoice } => r matches FirstStep::Pay {
                    pending,
                    invoice: due,
                } && pending.url() == self.url() && pending.body() == self.body()
                    && pending.token() == token && due@ == invoice,
                FirstStepView::Failed(e) => r matches FirstStep::Failed(error) && error@ == e,
            },
    {
        match reply {
            Err(cause) => FirstStep::Failed(CommandError::Transport(cause)),
            Ok(response) => {
                if response.status == STATUS_OK {
                    FirstStep::Done(response)
                } else if response.status == STATUS_PAYMENT_REQUIRED {
                    let found = match response.header("WWW-Authenticate") {
                        Some(value) => read_challenge(Some(value.as_slice())),
                        None => read_challenge(None),
                    };
                    match found {
                        Ok(challenge) => FirstStep::Pay {
                            pending: PendingPayment {
                                url: self.url,
                                body: self.body,
                                token: challenge.token,
                            },
                            invoice: challenge.invoice,
                        },
                        Err(error) => FirstStep::Failed(error),
                    }
                } else {
                    FirstStep::Failed(CommandError::UnexpectedStatus(response.status))
                }
            },
        }
    }
}

/// Something that the caller is told to do to the outside world.
#[derive(Debug, Clone, PartialEq, Eq)]
pub enum Action {
    /// Send this request.
    Post(Request),
    /// Have this invoice paid.
    Pay(String),
}

impl View for Action {
    type V = Act;

    open spec fn view(&self) -> Act {
        match self {
            Action::Post(request) => Act::Post(request@),
            Action::Pay(invoice) => Act::Pay(invoice@),
        }
    }
}

/// The record of an exchange: what was done, in order, and what came of it.
#[derive(Debug, PartialEq, Eq)]
pub struct Transcript {
    pub actions: Vec<Action>,
    pub result: Result<Response, CommandError>,
}

impl View for Transcript {
    type V = Run;

    open spec fn view(&self) -> Run {
        Run {
            acts: self.actions@.map_values(|a: Action| a@),
            result: match self.result {
                Ok(response) => Ok(response@),
                Err(e) => Err(e@),
            },
        }
    }
}

/// Plays an exchange through against answers that are known beforehand, as a
/// rehearsal without a server or a node: each step is taken on the answer that
/// belongs to it, and what the steps ask for is written down in place of being
/// done. An answer that no step asks for is not looked at.
pub fn play(
    url: String,
    body: Vec<u8>,
    first: Result<Response, String>,
    payment: Result<PaymentOutcome, String>,
    retry: Result<Response, String>,
) -> (r: Transcript)
    ensures
        r@ == run(
            url@,
            body@,
            World {
                first: reply_view(first),
                payment: payment_view(payment),
                retry: reply_view(retry),
            },
        ),
{
    let mut actions: Vec<Action> = Vec::new();
    let (exchange, request) = Exchange::start(url, body);
    actions.push(Action::Post(request));
    let ghost sent_first = actions@.map_values(|a: Action| a@);
    let result = match exchange.first_response(first) {
        FirstStep::Done(response) => Ok(response),
        FirstStep::Failed(e) => Err(e),
        FirstStep::Pay { pending, invoice } => {
            actions.push(Action::Pay(invoice));
            match pending.settled(payment) {
                PaymentStep::Failed(e) => Err(e),
                PaymentStep::Retry { pending, request } => {
                    actions.push(Action::Post(request));
                    pending.finish(retry)
                },
            }
        },
    };
    let r = Transcript { actions, result };
    proof {
        let expected = run(
            url@,
            body@,
            World {
                first: reply_view(first),
                payment: payment_view(payment),
                retry: reply_view(retry),
            },
        );
        assert(r@.acts =~= expected.acts);
    }
    r
}

} // verus!
