//! The operation binding: a state machine that drives one generated REST
//! call from URL construction to a typed outcome.
//!
//! The machine makes every decision — URL validation, whether a token is
//! needed, which header set a request carries, and how a status code is
//! dispatched against the operation's response map — while the caller
//! performs the outside work between steps: acquiring a token, serializing
//! a request body, executing the request and decoding a response body. An
//! authentication failure, like every other failure kind, finishes the
//! machine at once, so no request is dispatched after it.

use vstd::prelude::*;
use vstd::string::*;
use crate::text::{spec_udec, u64_to_string};
use crate::urls::{appended_all, build_final_url, parsed_text, url_accepts};

verus! {

/// The HTTP method of one operation.
#[derive(Debug, Clone, Copy, PartialEq, Eq, Structural)]
pub enum HttpMethod {
    Get,
    Put,
    Post,
    Delete,
    Patch,
    Head,
}

/// What a mapped status code carries: no body, or a body to decode.
#[derive(Debug, Clone, Copy, PartialEq, Eq, Structural)]
pub enum PayloadKind {
    Empty,
    Json,
}

/// One entry of an operation's response map.
#[derive(Debug, Clone, Copy, PartialEq, Eq, Structural)]
pub struct StatusMapping {
    pub status: u16,
    pub kind: PayloadKind,
}

/// One fully-argued operation call, before any outside work has happened:
/// the substituted URL, the query pairs to append, and the operation's
/// shape.
#[derive(Debug)]
pub struct Invocation {
    pub method: HttpMethod,
    pub url: String,
    pub query: Vec<(String, String)>,
    pub has_body: bool,
    pub requires_auth: bool,
    pub response_map: Vec<StatusMapping>,
}

/// A request handed to the transport: plain values only.
#[derive(Debug, PartialEq, Eq)]
pub struct HttpRequest {
    pub method: HttpMethod,
    pub url: String,
    pub headers: Vec<(String, String)>,
    pub body: Vec<u8>,
}

/// The closed set of failure kinds a binding can report, in the order the
/// failure points occur.
#[derive(Debug, PartialEq, Eq)]
pub enum BindingError {
    /// The substituted URL template failed to parse.
    UrlParseFailure,
    /// Auth was required and the credential call failed.
    TokenAcquisitionFailure,
    /// The request body failed to encode.
    RequestSerializationFailure,
    /// The transport-level request object failed to construct.
    RequestBuildFailure,
    /// The transport call itself failed.
    RequestExecutionFailure,
    /// A transported response whose status code has no entry in the
    /// response map; it carries the raw body bytes.
    UnexpectedStatus { status_code: u16, body: Vec<u8> },
    /// A mapped status code whose body failed to decode: the decoder's
    /// rendered cause beside the offending bytes.
    ResponseDeserializationFailure { cause: String, body: Vec<u8> },
}

/// Where one binding call stands.
#[derive(Debug)]
pub enum BindingState {
    /// The URL was accepted; a bearer token is being acquired.
    AwaitingToken { inv: Invocation, final_url: String },
    /// Headers are fixed; the request body is being serialized.
    AwaitingBody {
        method: HttpMethod,
        url: String,
        headers: Vec<(String, String)>,
        response_map: Vec<StatusMapping>,
    },
    /// A request was handed out; the transport's answer is awaited.
    AwaitingResponse { response_map: Vec<StatusMapping> },
    /// A mapped response body is being decoded.
    AwaitingDecode { status: u16, body: Vec<u8> },
    /// The call ended: the matched status code, or a failure kind.
    Finished { result: Result<u16, BindingError> },
}

/// What the caller reports back to the machine.
#[derive(Debug)]
pub enum BindingEvent {
    TokenAcquired { token: String },
    TokenDenied,
    BodySerialized { bytes: Vec<u8> },
    BodyRejected,
    RequestRejected,
    TransportFailed,
    ResponseArrived { status: u16, body: Vec<u8> },
    BodyDecoded,
    BodyUndecodable { cause: String },
}

/// What the machine asks the caller to do next.
#[derive(Debug)]
pub enum BindingAction {
    AcquireToken,
    SerializeBody,
    Execute { request: HttpRequest },
    DecodeBody { status: u16, body: Vec<u8> },
    Stop,
}

/// The events a state can answer. A finished machine accepts none.
pub open spec fn accepts(state: BindingState, event: BindingEvent) -> bool {
    match state {
        BindingState::AwaitingToken { .. } => event is TokenAcquired || event is TokenDenied,
        BindingState::AwaitingBody { .. } => event is BodySerialized || event is BodyRejected,
        BindingState::AwaitingResponse { .. } => event is ResponseArrived || event
            is TransportFailed || event is RequestRejected,
        BindingState::AwaitingDecode { .. } => event is BodyDecoded || event is BodyUndecodable,
        BindingState::Finished { .. } => false,
    }
}

/// The views of a key/value pair list.
pub open spec fn pair_views(q: Seq<(String, String)>) -> Seq<(Seq<char>, Seq<char>)> {
    q.map_values(|p: (String, String)| (p.0@, p.1@))
}

/// The header set a request carries: a bearer token when one was acquired,
/// a content type when a body is sent, and an explicit zero content length
/// on a bodyless POST.
pub open spec fn spec_headers(
    token: Option<Seq<char>>,
    has_body: bool,
    method: HttpMethod,
) -> Seq<(Seq<char>, Seq<char>)> {
    (match token {
        Some(t) => seq![("authorization"@, "Bearer "@ + t)],
        None => Seq::<(Seq<char>, Seq<char>)>::empty(),
    }) + (if has_body {
        seq![("content-type"@, "application/json"@)]
    } else {
        Seq::<(Seq<char>, Seq<char>)>::empty()
    }) + (if method == HttpMethod::Post && !has_body {
        seq![("content-length"@, "0"@)]
    } else {
        Seq::<(Seq<char>, Seq<char>)>::empty()
    })
}

/// The view of an optional token.
pub open spec fn token_view(token: Option<String>) -> Option<Seq<char>> {
    match token {
        Some(t) => Some(t@),
        None => None,
    }
}

/// Exact-match lookup of a status code in a response map: the first entry
/// bearing the code, no wildcard or range matching.
pub open spec fn lookup(map: Seq<StatusMapping>, status: u16) -> Option<PayloadKind>
    decreases map.len(),
{
    if map.len() == 0 {
        None
    } else if map[0].status == status {
        Some(map[0].kind)
    } else {
        lookup(map.drop_first(), status)
    }
}

/// What holds of the machine after it moves past token acquisition with
/// the given token, heading for `target` when the target URL is pinned.
pub open spec fn proceed_post(
    inv: Invocation,
    token: Option<Seq<char>>,
    target: Option<Seq<char>>,
    r: (BindingState, BindingAction),
) -> bool {
    &&& (inv.has_body ==> (r.0 matches BindingState::AwaitingBody {
        method,
        url,
        headers,
        response_map,
    } && method == inv.method && (target matches Some(t) ==> url@ == t) && pair_views(headers@)
        == spec_headers(token, true, inv.method) && response_map == inv.response_map && r.1
        == BindingAction::SerializeBody))
    &&& (!inv.has_body ==> (r.0 matches BindingState::AwaitingResponse { response_map }
        && response_map == inv.response_map && (r.1 matches BindingAction::Execute { request }
        && request.method == inv.method && (target matches Some(t) ==> request.url@ == t)
        && pair_views(request.headers@) == spec_headers(token, false, inv.method)
        && request.body@ == Seq::<u8>::empty())))
}

/// The query pair an optional string parameter contributes: nothing when
/// absent, never an empty value.
pub open spec fn opt_pair(name: Seq<char>, value: Option<&str>) -> Seq<(Seq<char>, Seq<char>)> {
    match value {
        Some(v) => seq![(name, v@)],
        None => Seq::<(Seq<char>, Seq<char>)>::empty(),
    }
}

/// The query pair an optional integer parameter contributes, rendered in
/// decimal.
pub open spec fn opt_int_pair(name: Seq<char>, value: Option<i64>) -> Seq<(Seq<char>, Seq<char>)> {
    match value {
        Some(v) => seq![(name, crate::text::spec_idec(v as int))],
        None => Seq::<(Seq<char>, Seq<char>)>::empty(),
    }
}

/// Starts a query pair list with the API version every operation sends.
pub fn api_version_query(api_version: &str) -> (r: Vec<(String, String)>)
    ensures
        pair_views(r@) == seq![("api-version"@, api_version@)],
{
    let mut q: Vec<(String, String)> = Vec::new();
    q.push((String::from_str("api-version"), String::from_str(api_version)));
    proof {
        assert(pair_views(q@) =~= seq![("api-version"@, api_version@)]);
    }
    q
}

/// A response map of one entry.
pub fn status_map1(s0: u16, k0: PayloadKind) -> (r: Vec<StatusMapping>)
    ensures
        r@ == seq![(StatusMapping { status: s0, kind: k0 })],
{
    let mut m: Vec<StatusMapping> = Vec::new();
    m.push(StatusMapping { status: s0, kind: k0 });
    proof {
        assert(m@ =~= seq![(StatusMapping { status: s0, kind: k0 })]);
    }
    m
}

/// A response map of two entries.
pub fn status_map2(s0: u16, k0: PayloadKind, s1: u16, k1: PayloadKind) -> (r: Vec<StatusMapping>)
    ensures
        r@ == seq![
            (StatusMapping { status: s0, kind: k0 }),
            (StatusMapping { status: s1, kind: k1 }),
        ],
{
    let mut m: Vec<StatusMapping> = Vec::new();
    m.push(StatusMapping { status: s0, kind: k0 });
    m.push(StatusMapping { status: s1, kind: k1 });
    proof {
        assert(m@ =~= seq![
            (StatusMapping { status: s0, kind: k0 }),
            (StatusMapping { status: s1, kind: k1 }),
        ]);
    }
    m
}

/// A response map of three entries.
pub fn status_map3(
    s0: u16,
    k0: PayloadKind,
    s1: u16,
    k1: PayloadKind,
    s2: u16,
    k2: PayloadKind,
) -> (r: Vec<StatusMapping>)
    ensures
        r@ == seq![
            (StatusMapping { status: s0, kind: k0 }),
            (StatusMapping { status: s1, kind: k1 }),
            (StatusMapping { status: s2, kind: k2 }),
        ],
{
    let mut m: Vec<StatusMapping> = Vec::new();
    m.push(StatusMapping { status: s0, kind: k0 });
    m.push(StatusMapping { status: s1, kind: k1 });
    m.push(StatusMapping { status: s2, kind: k2 });
    proof {
        assert(m@ =~= seq![
            (StatusMapping { status: s0, kind: k0 }),
            (StatusMapping { status: s1, kind: k1 }),
            (StatusMapping { status: s2, kind: k2 }),
        ]);
    }
    m
}

/// Builds the header list of one request.
fn build_headers(token: &Option<String>, has_body: bool, method: HttpMethod) -> (r: Vec<
    (String, String),
>)
    ensures
        pair_views(r@) == spec_headers(
            match *token {
                Some(t) => Some(t@),
                None => None,
            },
            has_body,
            method,
        ),
{
    let mut h: Vec<(String, String)> = Vec::new();
    match token {
        Some(t) => {
            let mut v = String::from_str("Bearer ");
            v.append(t.as_str());
            h.push((String::from_str("authorization"), v));
        },
        None => {},
    }
    if has_body {
        h.push((String::from_str("content-type"), String::from_str("application/json")));
    }
    if matches!(method, HttpMethod::Post) && !has_body {
        h.push((String::from_str("content-length"), String::from_str("0")));
    }
    proof {
        assert(pair_views(h@) =~= spec_headers(
            match *token {
                Some(t) => Some(t@),
                None => None,
            },
            has_body,
            method,
        ));
    }
    h
}

/// Moves the machine past token acquisition: fixes the headers, then waits
/// for a body when the operation sends one, else hands out the request.
fn proceed(inv: Invocation, final_url: String, token: Option<String>) -> (r: (
    BindingState,
    BindingAction,
))
    ensures
        proceed_post(inv, token_view(token), Some(final_url@), r),
        r.1 is Stop <==> r.0 is Finished,
{
    let headers = build_headers(&token, inv.has_body, inv.method);
    if inv.has_body {
        (
            BindingState::AwaitingBody {
                method: inv.method,
                url: final_url,
                headers,
                response_map: inv.response_map,
            },
            BindingAction::SerializeBody,
        )
    } else {
        let request = HttpRequest { method: inv.method, url: final_url, headers, body: Vec::new() };
        (
            BindingState::AwaitingResponse { response_map: inv.response_map },
            BindingAction::Execute { request },
        )
    }
}

/// Exact-match lookup of a status code in a response map.
fn find_mapping(map: &Vec<StatusMapping>, status: u16) -> (r: Option<PayloadKind>)
    ensures
        r == lookup(map@, status),
{
    let n = map.len();
    let mut i: usize = 0;
    proof {
        assert(map@.skip(0) =~= map@);
    }
    while i < n
        invariant
            0 <= i <= n,
            n == map@.len(),
            lookup(map@, status) == lookup(map@.skip(i as int), status),
        decreases n - i,
    {
        if map[i].status == status {
            proof {
                assert(map@.skip(i as int)[0] == map@[i as int]);
            }
            return Some(map[i].kind);
        }
        proof {
            assert(map@.skip(i as int)[0] == map@[i as int]);
            assert(map@.skip(i as int).drop_first() =~= map@.skip(i as int + 1));
        }
        i = i + 1;
    }
    None
}

/// Starts one binding call: validates the substituted URL, appends the
/// query pairs, then demands a token when the operation requires auth.
pub fn start(inv: Invocation) -> (r: (BindingState, BindingAction))
    ensures
        !url_accepts(inv.url@) ==> r.0 == (BindingState::Finished {
            result: Err::<u16, BindingError>(BindingError::UrlParseFailure),
        }) && r.1 == BindingAction::Stop,
        url_accepts(inv.url@) && inv.requires_auth ==> (r.0 matches BindingState::AwaitingToken {
            inv: started,
            final_url,
        } && started == inv && final_url@ == appended_all(parsed_text(inv.url@), inv.query@)
            && r.1 == BindingAction::AcquireToken),
        url_accepts(inv.url@) && !inv.requires_auth ==> proceed_post(
            inv,
            None::<Seq<char>>,
            Some(appended_all(parsed_text(inv.url@), inv.query@)),
            r,
        ),
        r.1 is Stop <==> r.0 is Finished,
{
    match build_final_url(inv.url.as_str(), &inv.query) {
        None => (
            BindingState::Finished { result: Err(BindingError::UrlParseFailure) },
            BindingAction::Stop,
        ),
        Some(final_url) => {
            if inv.requires_auth {
                (BindingState::AwaitingToken { inv, final_url }, BindingAction::AcquireToken)
            } else {
                proceed(inv, final_url, None)
            }
        },
    }
}

/// Answers one event: the machine's whole decision table.
///
/// A denied token, a rejected body, a failed build, a failed transport and
/// an undecodable response each finish the machine with their own failure
/// kind; an arriving response is dispatched by exact status-code lookup,
/// and an unmapped status finishes with the raw body bytes.
pub fn step(state: BindingState, event: BindingEvent) -> (r: (BindingState, BindingAction))
    requires
        accepts(state, event),
    ensures
        state matches BindingState::AwaitingToken { inv, final_url } ==> (event
            matches BindingEvent::TokenAcquired { token } ==> proceed_post(
            inv,
            Some(token@),
            Some(final_url@),
            r,
        )),
        state is AwaitingToken && event is TokenDenied ==> r.0 == (BindingState::Finished {
            result: Err::<u16, BindingError>(BindingError::TokenAcquisitionFailure),
        }) && r.1 == BindingAction::Stop,
        state matches BindingState::AwaitingBody { method, url, headers, response_map } ==> (event
            matches BindingEvent::BodySerialized { bytes } ==> (r.0
            matches BindingState::AwaitingResponse { response_map: kept } && kept == response_map
            && (r.1 matches BindingAction::Execute { request } && request.method == method
            && request.url == url && pair_views(request.headers@) == pair_views(headers@) + seq![
            ("content-length"@, spec_udec(bytes@.len())),
        ] && request.body == bytes))),
        state is AwaitingBody && event is BodyRejected ==> r.0 == (BindingState::Finished {
            result: Err::<u16, BindingError>(BindingError::RequestSerializationFailure),
        }) && r.1 == BindingAction::Stop,
        state is AwaitingResponse && event is RequestRejected ==> r.0 == (BindingState::Finished {
            result: Err::<u16, BindingError>(BindingError::RequestBuildFailure),
        }) && r.1 == BindingAction::Stop,
        state is AwaitingResponse && event is TransportFailed ==> r.0 == (BindingState::Finished {
            result: Err::<u16, BindingError>(BindingError::RequestExecutionFailure),
        }) && r.1 == BindingAction::Stop,
        state matches BindingState::AwaitingResponse { response_map } ==> (event
            matches BindingEvent::ResponseArrived { status, body } ==> ((lookup(
            response_map@,
            status,
        ) is None ==> r.0 == (BindingState::Finished {
            result: Err::<u16, BindingError>(
                BindingError::UnexpectedStatus { status_code: status, body: body },
            ),
        }) && r.1 == BindingAction::Stop) && (lookup(response_map@, status) == Some(
            PayloadKind::Empty,
        ) ==> r.0 == (BindingState::Finished { result: Ok::<u16, BindingError>(status) }) && r.1
            == BindingAction::Stop) && (lookup(response_map@, status) == Some(PayloadKind::Json)
            ==> (r.0 matches BindingState::AwaitingDecode { status: kept, body: kept_body } && kept
            == status && kept_body@ == body@ && (r.1 matches BindingAction::DecodeBody {
            status: asked,
            body: asked_body,
        } && asked == status && asked_body@ == body@))))),
        state matches BindingState::AwaitingDecode { status, body } ==> (event is BodyDecoded
            ==> r.0 == (BindingState::Finished { result: Ok::<u16, BindingError>(status) }) && r.1
            == BindingAction::Stop),
        state matches BindingState::AwaitingDecode { status, body } ==> (event
            matches BindingEvent::BodyUndecodable { cause } ==> r.0 == (BindingState::Finished {
            result: Err::<u16, BindingError>(
                BindingError::ResponseDeserializationFailure { cause: cause, body: body },
            ),
        }) && r.1 == BindingAction::Stop),
        r.1 is Stop <==> r.0 is Finished,
        event is TokenDenied ==> !(r.1 is Execute),
{
    match (state, event) {
        (
            BindingState::AwaitingToken { inv, final_url },
            BindingEvent::TokenAcquired { token },
        ) => proceed(inv, final_url, Some(token)),
        (BindingState::AwaitingToken { .. }, BindingEvent::TokenDenied) => (
            BindingState::Finished { result: Err(BindingError::TokenAcquisitionFailure) },
            BindingAction::Stop,
        ),
        (
            BindingState::AwaitingBody { method, url, headers, response_map },
            BindingEvent::BodySerialized { bytes },
        ) => {
            let mut headers = headers;
            let ghost fixed = headers@;
            let length = u64_to_string(bytes.len() as u64);
            headers.push((String::from_str("content-length"), length));
            proof {
                assert(pair_views(headers@) =~= pair_views(fixed) + seq![
                    ("content-length"@, spec_udec(bytes@.len())),
                ]);
            }
            let request = HttpRequest { method, url, headers, body: bytes };
            (
                BindingState::AwaitingResponse { response_map },
                BindingAction::Execute { request },
            )
        },
        (BindingState::AwaitingBody { .. }, BindingEvent::BodyRejected) => (
            BindingState::Finished { result: Err(BindingError::RequestSerializationFailure) },
            BindingAction::Stop,
        ),
        (BindingState::AwaitingResponse { .. }, BindingEvent::RequestRejected) => (
            BindingState::Finished { result: Err(BindingError::RequestBuildFailure) },
            BindingAction::Stop,
        ),
        (BindingState::AwaitingResponse { .. }, BindingEvent::TransportFailed) => (
            BindingState::Finished { result: Err(BindingError::RequestExecutionFailure) },
            BindingAction::Stop,
        ),
        (
            BindingState::AwaitingResponse { response_map },
            BindingEvent::ResponseArrived { status, body },
        ) => {
            match find_mapping(&response_map, status) {
                None => (
                    BindingState::Finished {
                        result: Err(BindingError::UnexpectedStatus { status_code: status, body }),
                    },
                    BindingAction::Stop,
                ),
                Some(PayloadKind::Empty) => (
                    BindingState::Finished { result: Ok(status) },
                    BindingAction::Stop,
                ),
                Some(PayloadKind::Json) => {
                    let copy = clone_bytes(&body);
                    (
                        BindingState::AwaitingDecode { status, body: copy },
                        BindingAction::DecodeBody { status, body },
                    )
                },
            }
        },
        (BindingState::AwaitingDecode { status, body: _ }, BindingEvent::BodyDecoded) => (
            BindingState::Finished { result: Ok(status) },
            BindingAction::Stop,
        ),
        (
            BindingState::AwaitingDecode { status: _, body },
            BindingEvent::BodyUndecodable { cause },
        ) => (
            BindingState::Finished {
                result: Err(BindingError::ResponseDeserializationFailure { cause, body }),
            },
            BindingAction::Stop,
        ),
        _ => {
            proof {
                assert(false);
            }
            (BindingState::Finished { result: Ok(0) }, BindingAction::Stop)
        },
    }
}

/// Copies a byte vector.
fn clone_bytes(v: &Vec<u8>) -> (r: Vec<u8>)
    ensures
        r@ == v@,
{
    let mut out: Vec<u8> = Vec::new();
    let n = v.len();
    let mut i: usize = 0;
    while i < n
        invariant
            0 <= i <= n,
            n == v@.len(),
            out@ == v@.subrange(0, i as int),
        decreases n - i,
    {
        out.push(v[i]);
        proof {
            assert(out@ =~= v@.subrange(0, i + 1));
        }
        i = i + 1;
    }
    proof {
        assert(out@ =~= v@);
    }
    out
}

/// A finished machine is terminal: it accepts no further event, so nothing
/// — in particular no transport call — can follow a failure.
pub proof fn lemma_finished_accepts_nothing(
    result: Result<u16, BindingError>,
    event: BindingEvent,
)
    ensures
        !accepts(BindingState::Finished { result }, event),
{
}

} // verus!
