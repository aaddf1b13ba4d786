//! Requests and responses as plain data, and the rules of the execution
//! engine: which header pairs go on the wire, when a body is attached, and
//! how a received reply becomes an `ApiResponse`.

use std::str::FromStr;
use vstd::prelude::*;

verus! {

/// An ordered list of header pairs, seen as text.
pub type HeaderSeq = Seq<(Seq<char>, Seq<char>)>;

/// A list of header pairs as the sequence of their texts, in order.
pub open spec fn header_seq(v: Seq<(String, String)>) -> HeaderSeq {
    Seq::new(v.len(), |i: int| (v[i].0@, v[i].1@))
}

/// The five request methods.
#[derive(Debug, Clone, Copy, PartialEq, Eq, Structural)]
pub enum HttpMethod {
    POST,
    GET,
    PUT,
    DELETE,
    PATCH,
}

/// The method type of the transport.
#[verifier::external_type_specification]
#[verifier::external_body]
pub struct ExMethod(reqwest::Method);

/// The token that a method of the transport stands for, as `Method::as_str`
/// gives it.
pub uninterp spec fn method_token(method: reqwest::Method) -> Seq<char>;

impl HttpMethod {
    /// The method's token on the wire.
    pub open spec fn token_spec(self) -> Seq<char> {
        match self {
            HttpMethod::POST => "POST"@,
            HttpMethod::GET => "GET"@,
            HttpMethod::PUT => "PUT"@,
            HttpMethod::DELETE => "DELETE"@,
            HttpMethod::PATCH => "PATCH"@,
        }
    }

    /// The method's token on the wire.
    pub fn token(&self) -> (t: &'static str)
        ensures
            t@ == self.token_spec(),
    {
        match self {
            HttpMethod::POST => "POST",
            HttpMethod::GET => "GET",
            HttpMethod::PUT => "PUT",
            HttpMethod::DELETE => "DELETE",
            HttpMethod::PATCH => "PATCH",
        }
    }

    /// The transport's constant for this method: `Method::POST`,
    /// `Method::GET`, `Method::PUT`, `Method::DELETE` or `Method::PATCH`,
    /// whose token is this method's token.
    #[verifier::external_body]
    pub fn to_request(&self) -> (method: reqwest::Method)
        ensures
            method_token(method) == self.token_spec(),
    {
        match self {
            HttpMethod::POST => reqwest::Method::POST,
            HttpMethod::GET => reqwest::Method::GET,
            HttpMethod::PUT => reqwest::Method::PUT,
            HttpMethod::DELETE => reqwest::Method::DELETE,
            HttpMethod::PATCH => reqwest::Method::PATCH,
        }
    }
}

/// A received response.
#[derive(Debug)]
pub struct ApiResponse {
    pub status: u16,
    pub status_text: String,
    pub headers: Vec<(String, String)>,
    pub body: String,
    pub duration_ms: u128,
}

/// What an `ApiResponse` holds, as text.
pub struct ApiResponseView {
    pub status: u16,
    pub status_text: Seq<char>,
    pub headers: HeaderSeq,
    pub body: Seq<char>,
    pub duration_ms: u128,
}

impl View for ApiResponse {
    type V = ApiResponseView;

    open spec fn view(&self) -> ApiResponseView {
        ApiResponseView {
            status: self.status,
            status_text: self.status_text@,
            headers: header_seq(self.headers@),
            body: self.body@,
            duration_ms: self.duration_ms,
        }
    }
}

/// The outcome of one call as text: a response, or the message of a failure.
pub type OutcomeView = Result<ApiResponseView, Seq<char>>;

/// The outcome of one call, seen as text.
pub open spec fn outcome_view(r: Result<ApiResponse, String>) -> OutcomeView {
    match r {
        Ok(response) => Ok(response@),
        Err(message) => Err(message@),
    }
}

/// A request that is ready to be sent.
#[derive(Debug)]
pub struct Request {
    pub url: String,
    pub method: HttpMethod,
    pub headers: Vec<(String, String)>,
    pub body: Option<String>,
}

/// What a `Request` holds, as text.
pub struct RequestView {
    pub url: Seq<char>,
    pub method: HttpMethod,
    pub headers: HeaderSeq,
    pub body: Option<Seq<char>>,
}

impl View for Request {
    type V = RequestView;

    open spec fn view(&self) -> RequestView {
        RequestView {
            url: self.url@,
            method: self.method,
            headers: header_seq(self.headers@),
            body: match self.body {
                Some(text) => Some(text@),
                None => None,
            },
        }
    }
}

/// Appending a pair to a list appends its texts to the list's texts.
pub proof fn lemma_header_seq_push(v: Seq<(String, String)>, pair: (String, String))
    ensures
        header_seq(v.push(pair)) == header_seq(v).push((pair.0@, pair.1@)),
{
    assert(header_seq(v.push(pair)) =~= header_seq(v).push((pair.0@, pair.1@)));
}

/// A copy of a list of header pairs: the same texts in the same order.
pub fn copy_headers(headers: &Vec<(String, String)>) -> (copy: Vec<(String, String)>)
    ensures
        header_seq(copy@) == header_seq(headers@),
{
    let mut copy: Vec<(String, String)> = Vec::new();
    let mut i: usize = 0;
    while i < headers.len()
        invariant
            i <= headers.len(),
            header_seq(copy@) == header_seq(headers@.take(i as int)),
        decreases headers.len() - i,
    {
        let pair = &headers[i];
        proof {
            lemma_header_seq_push(copy@, (pair.0, pair.1));
            lemma_header_seq_push(headers@.take(i as int), headers@[i as int]);
            assert(headers@.take(i as int).push(headers@[i as int]) =~= headers@.take(i + 1));
        }
        copy.push((pair.0.clone(), pair.1.clone()));
        i += 1;
    }
    assert(headers@.take(i as int) =~= headers@);
    copy
}

impl Clone for ApiResponse {
    fn clone(&self) -> (copy: ApiResponse)
        ensures
            copy@ == self@,
    {
        ApiResponse {
            status: self.status,
            status_text: self.status_text.clone(),
            headers: copy_headers(&self.headers),
            body: self.body.clone(),
            duration_ms: self.duration_ms,
        }
    }
}

impl Clone for Request {
    fn clone(&self) -> (copy: Request)
        ensures
            copy@ == self@,
    {
        Request {
            url: self.url.clone(),
            method: self.method,
            headers: copy_headers(&self.headers),
            body: match &self.body {
                Some(text) => Some(text.clone()),
                None => None,
            },
        }
    }
}

/// A copy of an outcome with the same contents.
pub fn copy_outcome(outcome: &Result<ApiResponse, String>) -> (copy: Result<ApiResponse, String>)
    ensures
        outcome_view(copy) == outcome_view(*outcome),
{
    match outcome {
        Ok(response) => Ok(response.clone()),
        Err(message) => Err(message.clone()),
    }
}

/// Whether a character has the Unicode property White_Space, as
/// `char::is_whitespace` reports it.
pub uninterp spec fn white_space(c: char) -> bool;

/// Whether every character of a text is white space; the empty text is blank.
pub open spec fn blank(text: Seq<char>) -> bool {
    forall|i: int| 0 <= i < text.len() ==> white_space(#[trigger] text[i])
}

/// Whether all of `text` before `from` and all of it from `to` on is white
/// space.
pub open spec fn trims_to(text: Seq<char>, from: int, to: int) -> bool {
    &&& 0 <= from <= to <= text.len()
    &&& forall|i: int| 0 <= i < from ==> white_space(#[trigger] text[i])
    &&& forall|i: int| to <= i < text.len() ==> white_space(#[trigger] text[i])
}

/// Whether `inner` is `text` without some white space at its two ends.
pub open spec fn trim_of(text: Seq<char>, inner: Seq<char>) -> bool {
    exists|from: int, to: int| #[trigger]
        trims_to(text, from, to) && inner == text.subrange(from, to)
}

/// `str::trim`: the result is the argument without its leading and trailing
/// white space, where white space is what `char::is_whitespace` accepts. So
/// what was cut off is white space, and what is left neither starts nor ends
/// with it.
#[verifier::external_body]
fn trimmed(text: &str) -> (inner: &str)
    ensures
        trim_of(text@, inner@),
        inner@.len() > 0 ==> !white_space(inner@.first()) && !white_space(inner@.last()),
{
    text.trim()
}

/// Whether a text holds nothing but white space.
pub fn is_blank(text: &str) -> (b: bool)
    ensures
        b == blank(text@),
{
    let inner = trimmed(text);
    proof {
        let (from, to) = choose|from: int, to: int| #[trigger]
            trims_to(text@, from, to) && inner@ == text@.subrange(from, to);
        if from < to {
            assert(inner@.first() == text@[from]);
        }
    }
    inner.is_empty()
}

/// The body that goes out with a request: none where the text is blank,
/// else the text as it stands.
pub open spec fn outbound_body_spec(body: Seq<char>) -> Option<Seq<char>> {
    if blank(body) {
        None
    } else {
        Some(body)
    }
}

/// The body that goes out with a request: none where the text is blank,
/// else the text as it stands.
pub fn outbound_body(body: &String) -> (out: Option<String>)
    ensures
        match out {
            Some(text) => Some(text@),
            None => None,
        } == outbound_body_spec(body@),
{
    if is_blank(body.as_str()) {
        None
    } else {
        Some(body.clone())
    }
}

/// Whether a character may stand in a header name: a letter, a digit, or one
/// of the marks that the token grammar allows.
pub open spec fn token_char(c: char) -> bool {
    ||| 'a' <= c <= 'z'
    ||| 'A' <= c <= 'Z'
    ||| '0' <= c <= '9'
    ||| c == '!'
    ||| c == '#'
    ||| c == '$'
    ||| c == '%'
    ||| c == '&'
    ||| c == '\''
    ||| c == '*'
    ||| c == '+'
    ||| c == '-'
    ||| c == '.'
    ||| c == '^'
    ||| c == '_'
    ||| c == '`'
    ||| c == '|'
    ||| c == '~'
}

/// Whether a key can be sent as a header name: between 1 and 65535
/// characters, each of them a token character.
pub open spec fn wire_name(key: Seq<char>) -> bool {
    &&& 1 <= key.len() <= 65535
    &&& forall|i: int| 0 <= i < key.len() ==> token_char(#[trigger] key[i])
}

/// Whether a character may stand in a header value: a tab, or anything from
/// the space upwards but the delete character.
pub open spec fn value_char(c: char) -> bool {
    c == '\t' || (' ' <= c && c != '\x7f')
}

/// Whether a text can be sent as a header value.
pub open spec fn wire_value(value: Seq<char>) -> bool {
    forall|i: int| 0 <= i < value.len() ==> value_char(#[trigger] value[i])
}

/// `HeaderName::from_str`: it accepts a key if and only if the key is a
/// token of 1 to 65535 characters.
#[verifier::external_body]
fn header_name_accepted(key: &str) -> (ok: bool)
    ensures
        ok == wire_name(key@),
{
    reqwest::header::HeaderName::from_str(key).is_ok()
}

/// `HeaderValue::from_str`: it accepts a text if and only if none of its
/// characters is a control character other than the tab.
#[verifier::external_body]
fn header_value_accepted(value: &str) -> (ok: bool)
    ensures
        ok == wire_value(value@),
{
    reqwest::header::HeaderValue::from_str(value).is_ok()
}

/// Whether a header pair can be sent.
pub open spec fn wire_pair(pair: (Seq<char>, Seq<char>)) -> bool {
    wire_name(pair.0) && wire_value(pair.1)
}

/// The test that a header pair must pass to be sent.
pub open spec fn sendable() -> spec_fn((Seq<char>, Seq<char>)) -> bool {
    |pair: (Seq<char>, Seq<char>)| wire_pair(pair)
}

/// The pairs of a list that can be sent, in their order; the others are
/// left out.
pub open spec fn outbound_headers_spec(headers: HeaderSeq) -> HeaderSeq {
    headers.filter(sendable())
}

/// The header pairs that go on the wire: those whose key and value can both
/// be encoded, in their order. A pair that cannot is dropped, and the call
/// goes on without it.
pub fn outbound_headers(headers: &Vec<(String, String)>) -> (out: Vec<(String, String)>)
    ensures
        header_seq(out@) == outbound_headers_spec(header_seq(headers@)),
{
    let mut out: Vec<(String, String)> = Vec::new();
    let mut i: usize = 0;
    proof {
        reveal(Seq::filter);
        assert(header_seq(headers@.take(0)) =~= Seq::empty());
    }
    while i < headers.len()
        invariant
            i <= headers.len(),
            header_seq(out@) == outbound_headers_spec(header_seq(headers@.take(i as int))),
        decreases headers.len() - i,
    {
        let pair = &headers[i];
        proof {
            lemma_header_seq_push(out@, (pair.0, pair.1));
            lemma_header_seq_push(headers@.take(i as int), headers@[i as int]);
            assert(headers@.take(i as int).push(headers@[i as int]) =~= headers@.take(i + 1));
            let grown = header_seq(headers@.take(i + 1));
            assert(grown.drop_last() =~= header_seq(headers@.take(i as int)));
            assert(grown.last() == (pair.0@, pair.1@));
            reveal(Seq::filter);
        }
        if header_name_accepted(pair.0.as_str()) && header_value_accepted(pair.1.as_str()) {
            out.push((pair.0.clone(), pair.1.clone()));
        }
        i += 1;
    }
    assert(headers@.take(i as int) =~= headers@);
    out
}

/// The standard reason phrase of a status code, as
/// `StatusCode::canonical_reason` gives it; none for a code that has no
/// phrase or is no status code.
pub uninterp spec fn canonical_reason(status: u16) -> Option<Seq<char>>;

/// `StatusCode::from_u16` and then `StatusCode::canonical_reason`: the
/// phrase that the table of status codes holds for this number, if any.
#[verifier::external_body]
fn reason_of(status: u16) -> (reason: Option<String>)
    ensures
        match reason {
            Some(text) => Some(text@),
            None => None,
        } == canonical_reason(status),
{
    match reqwest::StatusCode::from_u16(status) {
        Ok(code) => code.canonical_reason().map(String::from),
        Err(_) => None,
    }
}

/// The text shown for a status: its reason phrase, or "Unknown" without one.
pub open spec fn phrase_or_unknown(reason: Option<Seq<char>>) -> Seq<char> {
    match reason {
        Some(text) => text,
        None => "Unknown"@,
    }
}

/// The text shown for a status: the given reason phrase, or "Unknown"
/// where there is none.
pub fn reason_or_unknown(reason: Option<String>) -> (text: String)
    ensures
        text@ == phrase_or_unknown(
            match reason {
                Some(t) => Some(t@),
                None => None,
            },
        ),
{
    match reason {
        Some(text) => text,
        None => "Unknown".to_owned(),
    }
}

/// The status text of a received status code.
pub fn status_text(status: u16) -> (text: String)
    ensures
        text@ == phrase_or_unknown(canonical_reason(status)),
{
    reason_or_unknown(reason_of(status))
}

/// The received headers as pairs of texts, in the order of receipt: a value
/// that could not be read as text counts as the empty text.
pub open spec fn received_headers_spec(raw: Seq<(String, Option<String>)>) -> HeaderSeq {
    Seq::new(
        raw.len(),
        |i: int|
            (
                raw[i].0@,
                match raw[i].1 {
                    Some(value) => value@,
                    None => Seq::<char>::empty(),
                },
            ),
    )
}

/// The response headers in the order of receipt. A value that could not be
/// read as text is recorded as the empty text.
pub fn received_headers(raw: Vec<(String, Option<String>)>) -> (out: Vec<(String, String)>)
    ensures
        header_seq(out@) == received_headers_spec(raw@),
{
    let mut out: Vec<(String, String)> = Vec::new();
    let mut i: usize = 0;
    while i < raw.len()
        invariant
            i <= raw.len(),
            out@.len() == i,
            header_seq(out@) == received_headers_spec(raw@.take(i as int)),
        decreases raw.len() - i,
    {
        let value = match &raw[i].1 {
            Some(value) => value.clone(),
            None => String::new(),
        };
        let pair = (raw[i].0.clone(), value);
        proof {
            lemma_header_seq_push(out@, pair);
            assert(header_seq(out@).push((pair.0@, pair.1@)) =~= received_headers_spec(
                raw@.take(i + 1),
            ));
        }
        out.push(pair);
        i += 1;
    }
    assert(raw@.take(i as int) =~= raw@);
    out
}

/// What the transport hands back once a call has ended.
pub enum Reply {
    /// The call failed before a response came; the text describes why.
    Failed(String),
    /// A response came. `body` holds the text of the body, or the
    /// description of the failure to read it.
    Received {
        status: u16,
        headers: Vec<(String, Option<String>)>,
        body: Result<String, String>,
        duration_ms: u128,
    },
}

/// The outcome of a call, from what the transport handed back.
pub open spec fn conclude_spec(reply: Reply) -> OutcomeView {
    match reply {
        Reply::Failed(message) => Err(message@),
        Reply::Received { status, headers, body, duration_ms } => match body {
            Err(message) => Err(message@),
            Ok(text) => Ok(
                ApiResponseView {
                    status,
                    status_text: phrase_or_unknown(canonical_reason(status)),
                    headers: received_headers_spec(headers@),
                    body: text@,
                    duration_ms,
                },
            ),
        },
    }
}

/// The outcome of a call: a failure with its message where the call or the
/// reading of the body failed, else the response with its status text, its
/// headers in the order of receipt, its body and the time it took. A call
/// never succeeds in part.
pub fn conclude(reply: Reply) -> (outcome: Result<ApiResponse, String>)
    ensures
        outcome_view(outcome) == conclude_spec(reply),
{
    match reply {
        Reply::Failed(message) => Err(message),
        Reply::Received { status, headers, body, duration_ms } => match body {
            Err(message) => Err(message),
            Ok(text) => Ok(
                ApiResponse {
                    status,
                    status_text: status_text(status),
                    headers: received_headers(headers),
                    body: text,
                    duration_ms,
                },
            ),
        },
    }
}

/// What is handed to the transport for a request: the same method, address
/// and body, and of the headers those that can be sent.
pub open spec fn outbound_spec(request: RequestView) -> RequestView {
    RequestView { headers: outbound_headers_spec(request.headers), ..request }
}

/// Makes a request ready for the transport: the header pairs that cannot be
/// encoded are dropped, the rest is kept as it is.
pub fn outbound(request: Request) -> (out: Request)
    ensures
        out@ == outbound_spec(request@),
{
    let headers = outbound_headers(&request.headers);
    Request { url: request.url, method: request.method, headers, body: request.body }
}

} // verus!
