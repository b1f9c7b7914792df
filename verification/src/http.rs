//! What comes back from a server: a status, headers and a body. Header names
//! are looked up without regard to the case of ASCII letters, and where a name
//! occurs more than once the first occurrence counts.

use vstd::prelude::*;
use crate::text::chars_of;

verus! {

/// One header line of a response: its name, and its value as the bytes that came.
#[derive(Debug, Clone, PartialEq, Eq)]
pub struct Header {
    pub name: String,
    pub value: Vec<u8>,
}

/// The mathematical content of a [`Header`].
pub ghost struct HeaderView {
    pub name: Seq<char>,
    pub value: Seq<u8>,
}

impl View for Header {
    type V = HeaderView;

    open spec fn view(&self) -> HeaderView {
        HeaderView { name: self.name@, value: self.value@ }
    }
}

/// A response of the server.
#[derive(Debug, Clone, PartialEq, Eq)]
pub struct Response {
    pub status: u16,
    pub headers: Vec<Header>,
    pub body: String,
}

/// The mathematical content of a [`Response`].
pub ghost struct ResponseView {
    pub status: u16,
    pub headers: Seq<HeaderView>,
    pub body: Seq<char>,
}

/// The contents of a list of headers, in its order.
pub open spec fn headers_view(headers: Seq<Header>) -> Seq<HeaderView> {
    headers.map_values(|h: Header| h@)
}

impl View for Response {
    type V = ResponseView;

    open spec fn view(&self) -> ResponseView {
        ResponseView {
            status: self.status,
            headers: headers_view(self.headers@),
            body: self.body@,
        }
    }
}

/// A character with the case of ASCII letters taken away: a capital letter
/// counts as its small one, every other character as itself.
pub open spec fn fold_case(c: char) -> u32 {
    if 'A' as u32 <= c as u32 <= 'Z' as u32 {
        (c as u32 + 32) as u32
    } else {
        c as u32
    }
}

/// Two header names are the same name: they differ at most in the case of
/// ASCII letters.
pub open spec fn same_name(a: Seq<char>, b: Seq<char>) -> bool {
    &&& a.len() == b.len()
    &&& forall|i: int| 0 <= i < a.len() ==> fold_case(#[trigger] a[i]) == fold_case(b[i])
}

/// The value of the first header at or behind position `from` that has the name `name`.
pub open spec fn header_from(headers: Seq<HeaderView>, name: Seq<char>, from: int) -> Option<
    Seq<u8>,
>
    decreases headers.len() - from,
{
    if from < 0 || from >= headers.len() {
        None
    } else if same_name(headers[from].name, name) {
        Some(headers[from].value)
    } else {
        header_from(headers, name, from + 1)
    }
}

/// The value of the first header that has the name `name`.
pub open spec fn header_of(headers: Seq<HeaderView>, name: Seq<char>) -> Option<Seq<u8>> {
    header_from(headers, name, 0)
}

fn folded(c: char) -> (r: u32)
    ensures
        r == fold_case(c),
{
    let code: u32 = c as u32;
    if 'A' as u32 <= code && code <= 'Z' as u32 {
        code + 32
    } else {
        code
    }
}

/// Whether two header names are the same name.
pub fn names_match(a: &str, b: &str) -> (r: bool)
    ensures
        r == same_name(a@, b@),
{
    let x = chars_of(a);
    let y = chars_of(b);
    if x.len() != y.len() {
        return false;
    }
    let mut i: usize = 0;
    while i < x.len()
        invariant
            x@ == a@,
            y@ == b@,
            x.len() == y.len(),
            i <= x.len(),
            forall|k: int| 0 <= k < i ==> fold_case(#[trigger] a@[k]) == fold_case(b@[k]),
        decreases x.len() - i,
    {
        if folded(x[i]) != folded(y[i]) {
            return false;
        }
        i += 1;
    }
    true
}

impl Response {
    /// The value of the header `name`: that of the first header whose name is
    /// `name` but for the case of ASCII letters, and `None` where there is none.
    pub fn header(&self, name: &str) -> (r: Option<&Vec<u8>>)
        ensures
            match header_of(self@.headers, name@) {
                Some(v) => r is Some && r->Some_0@ == v,
                None => r is None,
            },
    {
        let mut i: usize = 0;
        while i < self.headers.len()
            invariant
                i <= self.headers.len(),
                header_of(self@.headers, name@) == header_from(self@.headers, name@, i as int),
            decreases self.headers.len() - i,
        {
            if names_match(self.headers[i].name.as_str(), name) {
                return Some(&self.headers[i].value);
            }
            i += 1;
        }
        None
    }
}

} // verus!
