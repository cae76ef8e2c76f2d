//! The callback receiver: the local HTTP endpoint that the provider sends the
//! browser back to. It takes one redirect, hands on what the redirect
//! carried, and closes.
//!
//! Serving HTTP is left to the caller. Here stands what is answered to each
//! request and what is handed on.

use vstd::prelude::*;
use vstd::utf8::encode_utf8;
use vstd::utf8::encode_utf8_decode_utf8;
use vstd::utf8::encode_utf8_valid_utf8;
use crate::auth::AccessCode;
use crate::auth::AuthorizationResult;
use crate::auth::AuthorizationResultView;
use crate::form::byte_pairs;
use crate::form::form_text;
use crate::form::lemma_form_text_bytes;
use crate::form::lemma_parse_serialize;
use crate::form::parse;
use crate::form::parse_pairs;
use crate::form::utf8_pairs;
use crate::form::Pair;
use crate::text::from_utf8_lossy;
use crate::text::same_text;
use crate::text::text_of_bytes;

verus! {

/// The loopback address that the receiver binds to.
pub const HOST: &'static str = "127.0.0.1";

/// The port on the loopback address that the receiver listens on.
pub const PORT: u16 = 8000;

/// The path that the provider redirects to.
pub const REDIRECT_PATH: &'static str = "/redirect";

/// The page shown once the code has been received.
pub const RECEIVED_PAGE: &'static str =
    "Hello from <b>tdi</b> - the access code was received and stored locally, you may safely close this browser window!";

/// The page shown where the redirect carries no code.
pub const DENIED_PAGE: &'static str =
    "Hello from <b>tdi</b> - error encountered requesting the access code.";

/// The reason handed on where the redirect carries no code.
pub const MISSING_CODE: &'static str = "access code missing";

/// The values of the pairs called `name`, in order.
pub open spec fn values_named(pairs: Seq<Pair>, name: Seq<u8>) -> Seq<Seq<u8>>
    decreases pairs.len(),
{
    if pairs.len() == 0 {
        Seq::empty()
    } else if pairs[0].0 == name {
        seq![pairs[0].1] + values_named(pairs.skip(1), name)
    } else {
        values_named(pairs.skip(1), name)
    }
}

/// The authorization code that a query string carries: the value of its one
/// `code` parameter. A query without that parameter, or with more than one,
/// carries none.
pub open spec fn code_of_query(query: Seq<char>) -> Option<Seq<char>> {
    let values = values_named(parse(encode_utf8(query)), encode_utf8("code"@));
    if values.len() == 1 {
        Some(text_of_bytes(values[0]))
    } else {
        None
    }
}

/// The view of what a query carries.
pub open spec fn opt_code_view(r: Option<AccessCode>) -> Option<Seq<char>> {
    match r {
        Some(found) => Some(found.code@),
        None => None,
    }
}

fn same_bytes(a: &Vec<u8>, b: &[u8]) -> (r: bool)
    ensures
        r == (a@ == b@),
{
    if a.len() != b.len() {
        return false;
    }
    let mut i: usize = 0;
    while i < a.len()
        invariant
            i <= a.len(),
            a@.len() == b@.len(),
            forall|j: int| 0 <= j < i ==> a@[j] == b@[j],
        decreases a.len() - i,
    {
        if a[i] != b[i] {
            return false;
        }
        i += 1;
    }
    assert(a@ =~= b@);
    true
}

impl AccessCode {
    /// Reads the query string of a redirect.
    pub fn from_query(query: &str) -> (r: Option<AccessCode>)
        ensures
            opt_code_view(r) == code_of_query(query@),
    {
        let pairs = parse_pairs(query.as_bytes());
        let name = "code".as_bytes();
        let ghost all = byte_pairs(pairs@);
        let mut found: Option<usize> = None;
        let mut repeated = false;
        let mut i: usize = pairs.len();
        while i > 0
            invariant
                i <= pairs.len(),
                all == byte_pairs(pairs@),
                match found {
                    None => !repeated && values_named(all.skip(i as int), name@).len() == 0,
                    Some(k) => {
                        &&& k < pairs.len()
                        &&& values_named(all.skip(i as int), name@)[0] == pairs@[k as int].1@
                        &&& if repeated {
                            values_named(all.skip(i as int), name@).len() > 1
                        } else {
                            values_named(all.skip(i as int), name@).len() == 1
                        }
                    },
                },
            decreases i,
        {
            i -= 1;
            proof {
                let rest = all.skip(i as int);
                assert(rest.skip(1) =~= all.skip(i + 1));
            }
            if same_bytes(&pairs[i].0, name) {
                repeated = found.is_some();
                found = Some(i);
            }
        }
        assert(all.skip(0) =~= all);
        match found {
            Some(k) => if repeated {
                None
            } else {
                Some(AccessCode { code: from_utf8_lossy(pairs[k].1.as_slice()) })
            },
            None => None,
        }
    }
}

/// A request as the receiver sees it.
pub struct RequestView {
    pub method: Seq<char>,
    pub path: Seq<char>,
    pub query: Seq<char>,
}

/// What the receiver answers, and what it hands on.
#[derive(Debug, PartialEq, Eq)]
pub struct Reply {
    /// The HTTP status.
    pub status: u16,
    /// The page.
    pub body: String,
    /// What is handed to the waiting login, if anything. Once something is
    /// handed on, the server finishes this response and shuts down.
    pub delivery: Option<AuthorizationResult>,
}

/// The mathematical value of a [`Reply`].
pub struct ReplyView {
    pub status: u16,
    pub body: Seq<char>,
    pub delivery: Option<AuthorizationResultView>,
}

impl View for Reply {
    type V = ReplyView;

    open spec fn view(&self) -> ReplyView {
        ReplyView {
            status: self.status,
            body: self.body@,
            delivery: match self.delivery {
                Some(result) => Some(result@),
                None => None,
            },
        }
    }
}

/// The receiver: it listens until it has handed on one result.
#[derive(Clone, Copy, Debug, PartialEq, Eq, Structural)]
pub enum Receiver {
    /// Nothing has been handed on yet.
    Listening,
    /// The one result has been handed on. The receiver is closing; a request
    /// that still gets through is turned away.
    Closed,
}

/// Whether a request is a redirect from the provider: a `GET` of the
/// redirect path.
pub open spec fn is_redirect(request: RequestView) -> bool {
    request.method == "GET"@ && request.path == REDIRECT_PATH@
}

/// What a listening receiver hands on for a redirect.
pub open spec fn result_of_query(query: Seq<char>) -> AuthorizationResultView {
    match code_of_query(query) {
        Some(code) => AuthorizationResultView::Code(code),
        None => AuthorizationResultView::Error(MISSING_CODE@),
    }
}

/// What the receiver answers to a request.
///
/// While it listens, a redirect with a code is answered 201 with the page of
/// success and the code is handed on; a redirect without is answered 404
/// with the page of failure and the missing code is handed on as an error.
/// Another path is answered 404, another method on the redirect path 405,
/// and nothing is handed on. Once closed, every request is answered 503.
pub open spec fn reply_to(state: Receiver, request: RequestView) -> ReplyView {
    match state {
        Receiver::Closed => ReplyView { status: 503, body: Seq::empty(), delivery: None },
        Receiver::Listening => if request.path != REDIRECT_PATH@ {
            ReplyView { status: 404, body: Seq::empty(), delivery: None }
        } else if request.method != "GET"@ {
            ReplyView { status: 405, body: Seq::empty(), delivery: None }
        } else {
            match code_of_query(request.query) {
                Some(code) => ReplyView {
                    status: 201,
                    body: RECEIVED_PAGE@,
                    delivery: Some(AuthorizationResultView::Code(code)),
                },
                None => ReplyView {
                    status: 404,
                    body: DENIED_PAGE@,
                    delivery: Some(AuthorizationResultView::Error(MISSING_CODE@)),
                },
            }
        },
    }
}

/// The receiver after a request: closed once something was handed on.
pub open spec fn state_after(state: Receiver, request: RequestView) -> Receiver {
    if reply_to(state, request).delivery is Some {
        Receiver::Closed
    } else {
        state
    }
}

/// Everything that the receiver hands on while it is sent `requests` one
/// after the other.
pub open spec fn deliveries(state: Receiver, requests: Seq<RequestView>) -> Seq<
    AuthorizationResultView,
>
    decreases requests.len(),
{
    if requests.len() == 0 {
        Seq::empty()
    } else {
        let rest = deliveries(state_after(state, requests[0]), requests.skip(1));
        match reply_to(state, requests[0]).delivery {
            Some(result) => seq![result] + rest,
            None => rest,
        }
    }
}

impl Receiver {
    /// A receiver that listens.
    pub fn new() -> (r: Receiver)
        ensures
            r == Receiver::Listening,
    {
        Receiver::Listening
    }

    /// Answers one request and moves on.
    pub fn handle(&mut self, method: &str, path: &str, query: &str) -> (reply: Reply)
        ensures
            reply@ == reply_to(
                *old(self),
                RequestView { method: method@, path: path@, query: query@ },
            ),
            *final(self) == state_after(
                *old(self),
                RequestView { method: method@, path: path@, query: query@ },
            ),
    {
        match *self {
            Receiver::Closed => Reply { status: 503, body: String::new(), delivery: None },
            Receiver::Listening => {
                if !same_text(path, REDIRECT_PATH) {
                    Reply { status: 404, body: String::new(), delivery: None }
                } else if !same_text(method, "GET") {
                    Reply { status: 405, body: String::new(), delivery: None }
                } else {
                    *self = Receiver::Closed;
                    match AccessCode::from_query(query) {
                        Some(found) => Reply {
                            status: 201,
                            body: RECEIVED_PAGE.to_owned(),
                            delivery: Some(AuthorizationResult::Code(found.code)),
                        },
                        None => Reply {
                            status: 404,
                            body: DENIED_PAGE.to_owned(),
                            delivery: Some(AuthorizationResult::Error(MISSING_CODE.to_owned())),
                        },
                    }
                }
            },
        }
    }
}

/// A closed receiver hands on nothing, whatever it is sent.
pub proof fn lemma_closed_is_silent(requests: Seq<RequestView>)
    ensures
        deliveries(Receiver::Closed, requests) == Seq::<AuthorizationResultView>::empty(),
    decreases requests.len(),
{
    if requests.len() > 0 {
        lemma_closed_is_silent(requests.skip(1));
    }
}

/// The index of the first redirect among `requests`, or their number where
/// there is none.
pub open spec fn first_redirect(requests: Seq<RequestView>) -> nat
    decreases requests.len(),
{
    if requests.len() == 0 {
        0
    } else if is_redirect(requests[0]) {
        0
    } else {
        1 + first_redirect(requests.skip(1))
    }
}

/// In the life of a receiver exactly one result is handed on, however many
/// requests come in: none before the first redirect, the result of the first
/// redirect, and nothing after it.
pub proof fn lemma_one_delivery(requests: Seq<RequestView>)
    ensures
        first_redirect(requests) <= requests.len(),
        deliveries(Receiver::Listening, requests).len() <= 1,
        first_redirect(requests) == requests.len() ==> deliveries(Receiver::Listening, requests)
            == Seq::<AuthorizationResultView>::empty(),
        first_redirect(requests) < requests.len() ==> deliveries(Receiver::Listening, requests)
            == seq![result_of_query(requests[first_redirect(requests) as int].query)],
    decreases requests.len(),
{
    if requests.len() > 0 {
        if is_redirect(requests[0]) {
            lemma_closed_is_silent(requests.skip(1));
        } else {
            lemma_one_delivery(requests.skip(1));
        }
    }
}

/// A redirect whose query is the form-encoded parameter `code` is answered
/// 201, and exactly that code is handed on, whatever characters it holds.
pub proof fn lemma_code_is_delivered(code: Seq<char>)
    ensures
        code_of_query(form_text(seq![("code"@, code)])) == Some(code),
        reply_to(
            Receiver::Listening,
            RequestView {
                method: "GET"@,
                path: REDIRECT_PATH@,
                query: form_text(seq![("code"@, code)]),
            },
        ) == (ReplyView {
            status: 201,
            body: RECEIVED_PAGE@,
            delivery: Some(AuthorizationResultView::Code(code)),
        }),
{
    let pairs = seq![("code"@, code)];
    let bytes = utf8_pairs(pairs);
    lemma_form_text_bytes(pairs);
    lemma_parse_serialize(bytes);
    assert(values_named(bytes.skip(1), encode_utf8("code"@)) =~= Seq::<Seq<u8>>::empty());
    encode_utf8_valid_utf8(code);
    encode_utf8_decode_utf8(code);
}

/// A redirect without a query is answered 404, and the missing code is
/// handed on as an error.
pub proof fn lemma_missing_code_is_reported()
    ensures
        code_of_query(Seq::<char>::empty()) is None,
        reply_to(
            Receiver::Listening,
            RequestView { method: "GET"@, path: REDIRECT_PATH@, query: Seq::empty() },
        ) == (ReplyView {
            status: 404,
            body: DENIED_PAGE@,
            delivery: Some(AuthorizationResultView::Error(MISSING_CODE@)),
        }),
{
}

} // verus!
