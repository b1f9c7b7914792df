//! The credential that proves payment: the token of the challenge and the
//! preimage that the payment revealed, in one `Authorization` header value.

use vstd::prelude::*;
use vstd::string::*;

verus! {

/// `L402 <token>:<preimage>`: the scheme, one space, the token, one colon, the
/// preimage, and nothing behind it.
pub open spec fn credential_text(token: Seq<char>, preimage: Seq<char>) -> Seq<char> {
    "L402 "@ + token + ":"@ + preimage
}

/// Composes the `Authorization` header value from the token and the preimage.
/// Neither is changed on the way: no escaping, no trimming.
pub fn credential(token: &str, preimage: &str) -> (r: String)
    ensures
        r@ == credential_text(token@, preimage@),
{
    let mut out = String::from_str("L402 ");
    out.append(token);
    out.append(":");
    out.append(preimage);
    out
}

/// A credential taken apart: it starts with `L402` and a single space, the token
/// follows as it was given, then a single colon, and the preimage as it was given
/// ends it.
pub proof fn law_credential_parts(token: Seq<char>, preimage: Seq<char>)
    ensures
        ({
            let c = credential_text(token, preimage);
            let n = token.len() as int;
            &&& c.len() == 5 + n + 1 + preimage.len()
            &&& c.subrange(0, 5) == "L402 "@
            &&& c.subrange(5, 5 + n) == token
            &&& c[5 + n] == ':'
            &&& c.skip(6 + n) == preimage
        }),
{
    reveal_strlit("L402 ");
    reveal_strlit(":");
    let c = credential_text(token, preimage);
    assert(c.subrange(0, 5) =~= "L402 "@);
    let n = token.len() as int;
    assert(c.subrange(5, 5 + n) =~= token);
    assert(c.skip(6 + n) =~= preimage);
}

} // verus!
