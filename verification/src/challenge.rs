//! The L402 challenge: the value of a `WWW-Authenticate` header of the shape
//!
//! ```text
//! L402 token="<TOKEN>", invoice="<INVOICE>"
//! ```
//!
//! and nothing more, where `macaroon` may stand in place of `token`. A token or
//! an invoice may hold any characters, a quote only directly behind a backslash.
//! Both are handed out as they stand in the header, backslashes included.

use vstd::prelude::*;
use vstd::string::*;
use crate::error::CommandError;
use crate::text::chars_of;

verus! {

/// What the server asks for: the token that names the offer, and the invoice to pay.
#[derive(Debug, Clone, PartialEq, Eq)]
pub struct Challenge {
    pub token: String,
    pub invoice: String,
}

/// The mathematical content of a [`Challenge`].
pub ghost struct ChallengeView {
    pub token: Seq<char>,
    pub invoice: Seq<char>,
}

impl View for Challenge {
    type V = ChallengeView;

    open spec fn view(&self) -> ChallengeView {
        ChallengeView { token: self.token@, invoice: self.invoice@ }
    }
}

/// What may stand between the quotes: any characters, among them no quote but
/// directly behind a backslash.
pub open spec fn is_value(v: Seq<char>) -> bool {
    forall|i: int| 0 <= i < v.len() && #[trigger] v[i] == '"' ==> i > 0 && v[i - 1] == '\\'
}

/// The parameter names under which the token may come.
pub open spec fn is_token_key(key: Seq<char>) -> bool {
    key == "token"@ || key == "macaroon"@
}

/// A header value written out: the scheme, the token under `key`, and the
/// invoice. The invoice's closing quote ends it.
pub open spec fn challenge_text(key: Seq<char>, token: Seq<char>, invoice: Seq<char>) -> Seq<
    char,
> {
    "L402 "@ + key + "=\""@ + token + "\", invoice=\""@ + invoice + "\""@
}

/// The header value `s` is the challenge `c` written out, under either name.
pub open spec fn is_challenge(s: Seq<char>, c: ChallengeView) -> bool {
    &&& is_value(c.token)
    &&& is_value(c.invoice)
    &&& (s == challenge_text("token"@, c.token, c.invoice) || s == challenge_text(
        "macaroon"@,
        c.token,
        c.invoice,
    ))
}

/// The challenge that the header value `s` holds, if it holds one. There is at
/// most one, see [`law_challenge_is_unique`].
pub open spec fn challenge_of(s: Seq<char>) -> Option<ChallengeView> {
    if exists|c: ChallengeView| is_challenge(s, c) {
        Some(choose|c: ChallengeView| is_challenge(s, c))
    } else {
        None
    }
}

/// `lit` stands in `s` at position `at`.
pub open spec fn has_at(s: Seq<char>, at: int, lit: Seq<char>) -> bool {
    &&& 0 <= at
    &&& at + lit.len() <= s.len()
    &&& s.subrange(at, at + lit.len()) =~= lit
}

/// Where the token starts: behind `L402 token="` or `L402 macaroon="`.
spec fn token_start(s: Seq<char>) -> Option<int> {
    if has_at(s, 0, "L402 token=\""@) {
        Some(12)
    } else if has_at(s, 0, "L402 macaroon=\""@) {
        Some(15)
    } else {
        None
    }
}

/// A quote stands at `i` that ends a value starting at `start`: no backslash
/// stands before it, or the value's first character is that quote.
spec fn bare_quote(s: Seq<char>, start: int, i: int) -> bool {
    &&& start <= i < s.len()
    &&& s[i] == '"'
    &&& (i == start || s[i - 1] != '\\')
}

/// From `start` up to `end`, no quote ends the value that starts at `start`.
spec fn no_bare_quote(s: Seq<char>, start: int, end: int) -> bool {
    forall|i: int| start <= i < end ==> !bare_quote(s, start, i)
}

/// From `b` on, `s` is the separator, an invoice, and the closing quote.
spec fn invoice_follows(s: Seq<char>, b: int) -> bool {
    &&& 0 <= b
    &&& b + 13 <= s.len()
    &&& has_at(s, b, "\", invoice=\""@)
    &&& s[s.len() - 1] == '"'
    &&& no_bare_quote(s, b + 12, s.len() - 1)
}

/// The token of `s` runs from `a` up to `b`, and the invoice follows it.
spec fn splits_at(s: Seq<char>, a: int, b: int) -> bool {
    &&& 0 <= a <= b
    &&& no_bare_quote(s, a, b)
    &&& invoice_follows(s, b)
}

/// The challenge that `s` holds when it is split at `b`.
spec fn split(s: Seq<char>, a: int, b: int) -> ChallengeView {
    ChallengeView { token: s.subrange(a, b), invoice: s.subrange(b + 12, s.len() - 1) }
}

/// A stretch of `s` is a value exactly if no quote in it ends the value.
proof fn lemma_value_range(s: Seq<char>, start: int, end: int)
    requires
        0 <= start <= end <= s.len(),
    ensures
        is_value(s.subrange(start, end)) <==> no_bare_quote(s, start, end),
{
    let v = s.subrange(start, end);
    if no_bare_quote(s, start, end) {
        assert forall|i: int| 0 <= i < v.len() && #[trigger] v[i] == '"' implies i > 0 && v[i
            - 1] == '\\' by {
            assert(!bare_quote(s, start, start + i));
        }
    }
    if is_value(v) {
        assert forall|i: int| start <= i < end implies !bare_quote(s, start, i) by {
            assert(v[i - start] == s[i]);
            if i > start {
                assert(v[i - start - 1] == s[i - 1]);
            }
        }
    }
}

/// The separator, character by character: it begins and ends with a quote, has
/// no quote in between, and its last quote stands behind `=`.
proof fn lemma_separator(s: Seq<char>, b: int)
    requires
        has_at(s, b, "\", invoice=\""@),
    ensures
        s[b] == '"',
        s[b + 11] == '"',
        s[b + 10] == '=',
        forall|i: int| b < i < b + 11 ==> #[trigger] s[i] != '"',
{
    reveal_strlit("\", invoice=\"");
    let sep = "\", invoice=\""@;
    assert forall|i: int| b <= i < b + 12 implies #[trigger] s[i] == sep[i - b] by {
        assert(s.subrange(b, b + 12)[i - b] == s[i]);
    }
}

/// Where `s` has a token from `a` up to `b`, the first quote that could end a
/// value starting at `a` is the separator's first quote or its last.
proof fn lemma_first_bare_quote(s: Seq<char>, a: int, b: int, q: int)
    requires
        splits_at(s, a, b),
        a <= q <= s.len(),
        no_bare_quote(s, a, q),
        q < s.len() ==> bare_quote(s, a, q),
    ensures
        q == b || q == b + 11,
{
    lemma_separator(s, b);
    assert(bare_quote(s, a, b + 11));
    if q < b {
        assert(bare_quote(s, a, q));
    }
}

/// A header value can be split in one way only.
proof fn lemma_split_unique(s: Seq<char>, a: int, b1: int, b2: int)
    requires
        splits_at(s, a, b1),
        splits_at(s, a, b2),
        b1 <= b2,
    ensures
        b1 == b2,
{
    if b1 < b2 {
        lemma_separator(s, b1);
        lemma_separator(s, b2);
        assert(bare_quote(s, a, b1 + 11));
        assert(b2 == b1 + 11);
        assert(bare_quote(s, b1 + 12, b1 + 22));
    }
}

/// A challenge written out is split behind its token.
proof fn lemma_challenge_splits(s: Seq<char>, key: Seq<char>, c: ChallengeView)
    requires
        is_token_key(key),
        is_value(c.token),
        is_value(c.invoice),
        s == challenge_text(key, c.token, c.invoice),
    ensures
        token_start(s) == Some(7 + key.len() as int),
        splits_at(s, 7 + key.len() as int, 7 + key.len() as int + c.token.len() as int),
        split(s, 7 + key.len() as int, 7 + key.len() as int + c.token.len() as int) == c,
{
    reveal_strlit("L402 ");
    reveal_strlit("token");
    reveal_strlit("macaroon");
    reveal_strlit("=\"");
    reveal_strlit("\", invoice=\"");
    reveal_strlit("\"");
    reveal_strlit("L402 token=\"");
    reveal_strlit("L402 macaroon=\"");
    let a = 7 + key.len() as int;
    let b = a + c.token.len();
    let open = "L402 "@ + key + "=\""@;
    assert(key == "token"@ ==> open =~= "L402 token=\""@);
    assert(key == "macaroon"@ ==> open =~= "L402 macaroon=\""@);
    assert(s.subrange(0, a) =~= open);
    assert(s[5] == key[0]);
    assert(s.subrange(0, 12)[5] == s[5]);
    assert(s.subrange(b, b + 12) =~= "\", invoice=\""@);
    assert(s.subrange(a, b) =~= c.token);
    assert(s.subrange(b + 12, s.len() - 1) =~= c.invoice);
    lemma_value_range(s, a, b);
    lemma_value_range(s, b + 12, s.len() - 1);
}

/// A header value that is split holds the challenge of that split.
proof fn lemma_split_is_challenge(s: Seq<char>, a: int, b: int)
    requires
        token_start(s) == Some(a),
        splits_at(s, a, b),
    ensures
        is_challenge(s, split(s, a, b)),
{
    reveal_strlit("L402 ");
    reveal_strlit("token");
    reveal_strlit("macaroon");
    reveal_strlit("=\"");
    reveal_strlit("\", invoice=\"");
    reveal_strlit("\"");
    reveal_strlit("L402 token=\"");
    reveal_strlit("L402 macaroon=\"");
    let c = split(s, a, b);
    let key = if a == 12 {
        "token"@
    } else {
        "macaroon"@
    };
    lemma_value_range(s, a, b);
    lemma_value_range(s, b + 12, s.len() - 1);
    let open = "L402 "@ + key + "=\""@;
    assert(open =~= s.subrange(0, a));
    assert(s.subrange(b, b + 12) == "\", invoice=\""@);
    assert(s =~= challenge_text(key, c.token, c.invoice));
}

/// The split of a header value that holds the challenge `c`.
proof fn lemma_challenge_has_split(s: Seq<char>, c: ChallengeView) -> (p: (int, int))
    requires
        is_challenge(s, c),
    ensures
        token_start(s) == Some(p.0),
        splits_at(s, p.0, p.1),
        split(s, p.0, p.1) == c,
{
    reveal_strlit("token");
    reveal_strlit("macaroon");
    let key = if s == challenge_text("token"@, c.token, c.invoice) {
        "token"@
    } else {
        "macaroon"@
    };
    lemma_challenge_splits(s, key, c);
    (7 + key.len() as int, 7 + key.len() as int + c.token.len() as int)
}

/// A header value holds at most one challenge: it can be read as a token and an
/// invoice in one way only.
pub proof fn law_challenge_is_unique(s: Seq<char>, c1: ChallengeView, c2: ChallengeView)
    requires
        is_challenge(s, c1),
        is_challenge(s, c2),
    ensures
        c1 == c2,
{
    let p1 = lemma_challenge_has_split(s, c1);
    let p2 = lemma_challenge_has_split(s, c2);
    if p1.1 <= p2.1 {
        lemma_split_unique(s, p1.0, p1.1, p2.1);
    } else {
        lemma_split_unique(s, p1.0, p2.1, p1.1);
    }
}

/// The parser reads every challenge of the grammar, and reads it rightly: from a
/// header value written with either parameter name, with any token and any
/// invoice that may stand between quotes, it gives back that token and that
/// invoice.
pub proof fn law_grammar_is_read(key: Seq<char>, token: Seq<char>, invoice: Seq<char>)
    requires
        is_token_key(key),
        is_value(token),
        is_value(invoice),
    ensures
        challenge_of(challenge_text(key, token, invoice)) == Some(
            ChallengeView { token, invoice },
        ),
{
    let s = challenge_text(key, token, invoice);
    let c = ChallengeView { token, invoice };
    assert(is_challenge(s, c));
    law_challenge_is_unique(s, c, challenge_of(s)->Some_0);
}

/// The parser reads nothing but the grammar: what it gives back for a header
/// value is a challenge that the value is made of, and it gives nothing back
/// exactly for the values that are made of none. So whatever is more or less
/// than `L402`, a space, the name, and the two quoted values is refused.
pub proof fn law_only_grammar_is_read(s: Seq<char>)
    ensures
        match challenge_of(s) {
            Some(c) => is_challenge(s, c),
            None => forall|key: Seq<char>, token: Seq<char>, invoice: Seq<char>|
                is_token_key(key) && is_value(token) && is_value(invoice) ==> s
                    != #[trigger] challenge_text(key, token, invoice),
        },
{
    if challenge_of(s) is None {
        assert forall|key: Seq<char>, token: Seq<char>, invoice: Seq<char>|
            is_token_key(key) && is_value(token) && is_value(invoice) implies s
            != #[trigger] challenge_text(key, token, invoice) by {
            if s == challenge_text(key, token, invoice) {
                assert(is_challenge(s, ChallengeView { token, invoice }));
            }
        }
    }
}

/// What stands behind the opening of a header value: the token, the separator,
/// the invoice and the closing quote.
spec fn after_opening(token: Seq<char>, invoice: Seq<char>) -> Seq<char> {
    token + "\", invoice=\""@ + invoice + "\""@
}

/// A header value holds the same challenges when its parameter name is changed
/// for the other one.
proof fn lemma_either_key(token: Seq<char>, invoice: Seq<char>, c: ChallengeView)
    ensures
        is_challenge(challenge_text("token"@, token, invoice), c) <==> is_challenge(
            challenge_text("macaroon"@, token, invoice),
            c,
        ),
{
    reveal_strlit("L402 ");
    reveal_strlit("token");
    reveal_strlit("macaroon");
    reveal_strlit("=\"");
    let open_token = "L402 "@ + "token"@ + "=\""@;
    let open_macaroon = "L402 "@ + "macaroon"@ + "=\""@;
    let ours = after_opening(token, invoice);
    let theirs = after_opening(c.token, c.invoice);
    let with_token = challenge_text("token"@, token, invoice);
    let with_macaroon = challenge_text("macaroon"@, token, invoice);
    let their_token = challenge_text("token"@, c.token, c.invoice);
    let their_macaroon = challenge_text("macaroon"@, c.token, c.invoice);
    assert(with_token =~= open_token + ours);
    assert(with_macaroon =~= open_macaroon + ours);
    assert(their_token =~= open_token + theirs);
    assert(their_macaroon =~= open_macaroon + theirs);
    assert(with_token[5] == 't' && their_token[5] == 't');
    assert(with_macaroon[5] == 'm' && their_macaroon[5] == 'm');
    assert(with_token.skip(12) =~= ours);
    assert(their_token.skip(12) =~= theirs);
    assert(with_macaroon.skip(15) =~= ours);
    assert(their_macaroon.skip(15) =~= theirs);
}

/// `token` and `macaroon` are read alike: two header values that differ only in
/// the parameter name hold the same challenge, or neither holds one.
pub proof fn law_macaroon_is_token(token: Seq<char>, invoice: Seq<char>)
    ensures
        challenge_of(challenge_text("macaroon"@, token, invoice)) == challenge_of(
            challenge_text("token"@, token, invoice),
        ),
{
    let with_token = challenge_text("token"@, token, invoice);
    let with_macaroon = challenge_text("macaroon"@, token, invoice);
    if challenge_of(with_token) is Some {
        let c = challenge_of(with_token)->Some_0;
        lemma_either_key(token, invoice, c);
        assert(is_challenge(with_macaroon, c));
        law_challenge_is_unique(with_macaroon, c, challenge_of(with_macaroon)->Some_0);
    }
    if challenge_of(with_macaroon) is Some {
        let c = challenge_of(with_macaroon)->Some_0;
        lemma_either_key(token, invoice, c);
        assert(is_challenge(with_token, c));
        law_challenge_is_unique(with_token, c, challenge_of(with_token)->Some_0);
    }
}

/// Whether the literal `lit` stands in `text` at position `at`.
fn literal_at(text: &Vec<char>, at: usize, lit: &str) -> (r: bool)
    ensures
        r == has_at(text@, at as int, lit@),
{
    let n: usize = lit.unicode_len();
    if at > text.len() || n > text.len() - at {
        return false;
    }
    let mut j: usize = 0;
    while j < n
        invariant
            j <= n,
            n == lit@.len(),
            at + n <= text.len(),
            forall|k: int| 0 <= k < j ==> text@[at + k] == lit@[k],
        decreases n - j,
    {
        if text[at + j] != lit.get_char(j) {
            assert(text@.subrange(at as int, at + n)[j as int] == text@[at + j]);
            return false;
        }
        j += 1;
    }
    true
}

/// The position of the first quote from `start` on that ends a value starting
/// at `start`, and `end` where there is none before `end`.
fn first_bare_quote(text: &Vec<char>, start: usize, end: usize) -> (q: usize)
    requires
        start <= end <= text.len(),
    ensures
        start <= q <= end,
        no_bare_quote(text@, start as int, q as int),
        q < end ==> bare_quote(text@, start as int, q as int),
{
    let mut i: usize = start;
    while i < end
        invariant
            start <= i <= end <= text.len(),
            no_bare_quote(text@, start as int, i as int),
        decreases end - i,
    {
        if text[i] == '"' && (i == start || text[i - 1] != '\\') {
            return i;
        }
        i += 1;
    }
    i
}

/// Whether `text` is, from `b` on, the separator, an invoice, and the closing
/// quote.
fn invoice_from(text: &Vec<char>, b: usize) -> (r: bool)
    ensures
        r == invoice_follows(text@, b as int),
{
    let n: usize = text.len();
    if b > n || n - b < 13 {
        return false;
    }
    if !literal_at(text, b, "\", invoice=\"") {
        return false;
    }
    if text[n - 1] != '"' {
        return false;
    }
    let e = first_bare_quote(text, b + 12, n - 1);
    e == n - 1
}

/// Reads the challenge out of a header value.
///
/// Returns the token and the invoice where the value is a challenge, and
/// `MalformedChallenge` where it is not.
pub fn parse_challenge(header: &str) -> (r: Result<Challenge, CommandError>)
    ensures
        match challenge_of(header@) {
            Some(c) => r is Ok && r->Ok_0@ == c,
            None => r == Err::<Challenge, CommandError>(CommandError::MalformedChallenge),
        },
{
    let text = chars_of(header);
    let ghost s = header@;
    let a: usize = if literal_at(&text, 0, "L402 token=\"") {
        12
    } else if literal_at(&text, 0, "L402 macaroon=\"") {
        15
    } else {
        proof {
            assert forall|c: ChallengeView| !is_challenge(s, c) by {
                if is_challenge(s, c) {
                    lemma_challenge_has_split(s, c);
                }
            }
        }
        return Err(CommandError::MalformedChallenge);
    };
    proof {
        reveal_strlit("L402 token=\"");
        reveal_strlit("L402 macaroon=\"");
    }
    let q = first_bare_quote(&text, a, text.len());
    let b: usize = if q - a >= 11 && invoice_from(&text, q - 11) {
        q - 11
    } else if invoice_from(&text, q) {
        q
    } else {
        proof {
            assert forall|c: ChallengeView| !is_challenge(s, c) by {
                if is_challenge(s, c) {
                    let p = lemma_challenge_has_split(s, c);
                    lemma_first_bare_quote(s, a as int, p.1, q as int);
                }
            }
        }
        return Err(CommandError::MalformedChallenge);
    };
    let token = header.substring_char(a, b).to_owned();
    let invoice = header.substring_char(b + 12, text.len() - 1).to_owned();
    let found = Challenge { token, invoice };
    proof {
        assert(splits_at(s, a as int, b as int));
        lemma_split_is_challenge(s, a as int, b as int);
        law_challenge_is_unique(s, found@, challenge_of(s)->Some_0);
    }
    Ok(found)
}

} // verus!
