//! Endpoints: typed descriptions of API calls that turn into requests.
use vstd::prelude::*;
use vstd::utf8::*;
use vstd::string::StringExecFns;
use http::uri::InvalidUri;
use http::Uri;
use std::str::FromStr;
use crate::error::Error;

verus! {

#[verifier::external_type_specification]
#[verifier::external_body]
pub struct ExUri(Uri);

#[verifier::external_type_specification]
#[verifier::external_body]
pub struct ExInvalidUri(InvalidUri);

/// Whether `http` accepts the text as a URI; it depends on the text alone.
pub uninterp spec fn uri_accepts(text: Seq<char>) -> bool;

/// Relies on `<http::Uri as FromStr>::from_str`: it parses the text and fails
/// exactly on the texts that `http` does not accept as a URI.
#[verifier::external_body]
fn parse_uri(text: &str) -> (r: Result<Uri, InvalidUri>)
    ensures
        r is Ok <==> uri_accepts(text@),
{
    Uri::from_str(text)
}

/// Relies on `String::push`: appends one character to the end of the string.
#[verifier::external_body]
fn push_char(s: &mut String, c: char)
    ensures
        final(s)@ == old(s)@.push(c),
{
    s.push(c)
}

/// A byte that stands for itself in a path segment: ASCII letters and digits,
/// `-`, `.`, `_` and `~`.
pub open spec fn is_unreserved(b: u8) -> bool {
    (0x41 <= b <= 0x5a) || (0x61 <= b <= 0x7a) || (0x30 <= b <= 0x39) || b == 0x2d || b == 0x2e
        || b == 0x5f || b == 0x7e
}

/// The upper-case hexadecimal digit for `n < 16`.
pub open spec fn hex_digit(n: u8) -> char {
    if n < 10 {
        ((48 + n) as u8) as char
    } else {
        ((55 + n) as u8) as char
    }
}

/// The value of a hexadecimal digit, either case.
pub open spec fn hex_value(c: char) -> Option<u8> {
    if '0' <= c <= '9' {
        Some(((c as u8) - 48) as u8)
    } else if 'A' <= c <= 'F' {
        Some(((c as u8) - 55) as u8)
    } else if 'a' <= c <= 'f' {
        Some(((c as u8) - 87) as u8)
    } else {
        None
    }
}

/// How one byte is written in a path segment.
pub open spec fn encode_byte(b: u8) -> Seq<char> {
    if is_unreserved(b) {
        seq![b as char]
    } else {
        seq!['%', hex_digit(b / 16), hex_digit(b % 16)]
    }
}

/// Percent-encoding of bytes as a path segment.
pub open spec fn pct_encode(b: Seq<u8>) -> Seq<char>
    decreases b.len(),
{
    if b.len() == 0 {
        Seq::empty()
    } else {
        encode_byte(b[0]) + pct_encode(b.drop_first())
    }
}

/// Percent-decoding of a path segment: each `%` followed by two hexadecimal
/// digits stands for one byte, every other character for its own code.
pub open spec fn pct_decode(s: Seq<char>) -> Seq<u8>
    decreases s.len(),
{
    if s.len() == 0 {
        Seq::empty()
    } else if s[0] == '%' && s.len() >= 3 && hex_value(s[1]) is Some && hex_value(s[2]) is Some {
        seq![(hex_value(s[1])->0 * 16 + hex_value(s[2])->0) as u8] + pct_decode(
            s.subrange(3, s.len() as int),
        )
    } else {
        seq![s[0] as u8] + pct_decode(s.drop_first())
    }
}

/// The path segment that names an account: its id, UTF-8 encoded and
/// percent-encoded.
pub open spec fn account_segment(id: Seq<char>) -> Seq<char> {
    pct_encode(encode_utf8(id))
}

/// The path of the account details of `id`.
pub open spec fn account_path(id: Seq<char>) -> Seq<char> {
    "/accounts/"@ + account_segment(id)
}

/// The HTTP method of a request.
#[derive(Clone, Copy, Debug, PartialEq, Eq, Structural)]
pub enum Method {
    Get,
}

/// The body of a request.
#[derive(Clone, Copy, Debug, PartialEq, Eq, Structural)]
pub enum Body {
    /// No body, as for every read.
    Empty,
}

/// A request ready for a transport: method, URI and body.
#[derive(Debug)]
pub struct Request {
    method: Method,
    target: String,
    path: String,
    uri: Uri,
    body: Body,
}

/// What a request holds, as plain values.
pub struct RequestView {
    pub method: Method,
    /// The full text the URI was parsed from: host followed by path.
    pub target: Seq<char>,
    /// The path part of the URI.
    pub path: Seq<char>,
    pub body: Body,
}

impl View for Request {
    type V = RequestView;

    closed spec fn view(&self) -> RequestView {
        RequestView { method: self.method, target: self.target@, path: self.path@, body: self.body }
    }
}

impl Request {
    /// The method of the request.
    pub fn method(&self) -> (r: Method)
        ensures
            r == self@.method,
    {
        self.method
    }

    /// The parsed URI.
    pub fn uri(&self) -> &Uri {
        &self.uri
    }

    /// The text the URI was parsed from.
    pub fn target(&self) -> (r: &str)
        ensures
            r@ == self@.target,
    {
        self.target.as_str()
    }

    /// The path part of the URI.
    pub fn path(&self) -> (r: &str)
        ensures
            r@ == self@.path,
    {
        self.path.as_str()
    }

    /// The body of the request.
    pub fn body(&self) -> (r: Body)
        ensures
            r == self@.body,
    {
        self.body
    }
}

/// The request that account details of `id` turn into on `host`.
pub open spec fn details_request(host: Seq<char>, id: Seq<char>) -> RequestView {
    RequestView {
        method: Method::Get,
        target: host + account_path(id),
        path: account_path(id),
        body: Body::Empty,
    }
}

/// What converting account details of `id` on `host` may return: a GET of
/// `{host}/accounts/{id}` without body, or `MalformedRequest` exactly when
/// that text is not a URI.
pub open spec fn details_request_result(host: Seq<char>, id: Seq<char>, r: Result<Request, Error>) -> bool {
    &&& (r is Ok <==> uri_accepts(details_request(host, id).target))
    &&& (r matches Ok(req) ==> req@ == details_request(host, id))
    &&& (r matches Err(e) ==> e == Error::MalformedRequest)
}

/// An endpoint that accesses a single account's details.
#[derive(Clone, Debug)]
pub struct Details {
    id: String,
}

impl View for Details {
    type V = Seq<char>;

    closed spec fn view(&self) -> Seq<char> {
        self.id@
    }
}

proof fn lemma_encode_push(b: Seq<u8>, x: u8)
    ensures
        pct_encode(b.push(x)) == pct_encode(b) + encode_byte(x),
    decreases b.len(),
{
    if b.len() == 0 {
        assert(b.push(x).drop_first() =~= Seq::<u8>::empty());
        assert(pct_encode(Seq::<u8>::empty()) == Seq::<char>::empty());
        assert(encode_byte(x) + Seq::<char>::empty() =~= encode_byte(x));
    } else {
        assert(b.push(x).drop_first() =~= b.drop_first().push(x));
        lemma_encode_push(b.drop_first(), x);
        assert(pct_encode(b.push(x)) =~= pct_encode(b) + encode_byte(x));
    }
}

/// Appends the path segment for `bytes` to `out`.
fn push_segment(out: &mut String, bytes: &[u8])
    ensures
        final(out)@ == old(out)@ + pct_encode(bytes@),
{
    let ghost start = out@;
    let mut i: usize = 0;
    assert(bytes@.subrange(0, 0) =~= Seq::<u8>::empty());
    assert(start + pct_encode(Seq::<u8>::empty()) =~= start);
    while i < bytes.len()
        invariant
            i <= bytes@.len(),
            out@ == start + pct_encode(bytes@.subrange(0, i as int)),
        decreases bytes@.len() - i,
    {
        let b = bytes[i];
        proof {
            assert(bytes@.subrange(0, i + 1) =~= bytes@.subrange(0, i as int).push(b));
            lemma_encode_push(bytes@.subrange(0, i as int), b);
        }
        if (0x41 <= b && b <= 0x5a) || (0x61 <= b && b <= 0x7a) || (0x30 <= b && b <= 0x39) || b
            == 0x2d || b == 0x2e || b == 0x5f || b == 0x7e {
            push_char(out, b as char);
        } else {
            push_char(out, '%');
            push_char(out, hex_char(b / 16));
            push_char(out, hex_char(b % 16));
        }
        assert(out@ =~= start + pct_encode(bytes@.subrange(0, i + 1)));
        i = i + 1;
    }
    assert(bytes@.subrange(0, bytes@.len() as int) =~= bytes@);
}

/// The hexadecimal digit for `n < 16`.
fn hex_char(n: u8) -> (c: char)
    requires
        n < 16,
    ensures
        c == hex_digit(n),
{
    if n < 10 {
        (48 + n) as char
    } else {
        (55 + n) as char
    }
}

impl Details {
    /// Returns a new endpoint for the details of the account `id`.
    pub fn new(id: &str) -> (r: Self)
        ensures
            r@ == id@,
    {
        Details { id: id.to_owned() }
    }

    /// Turns the endpoint into a GET request for `{host}/accounts/{id}`, the id
    /// percent-encoded as one path segment.
    pub fn into_request(self, host: &str) -> (r: Result<Request, Error>)
        ensures
            details_request_result(host@, self@, r),
    {
        let mut path = "/accounts/".to_owned();
        push_segment(&mut path, self.id.as_str().as_bytes());
        let mut target = host.to_owned();
        target.append(path.as_str());
        match parse_uri(target.as_str()) {
            Ok(uri) => Ok(Request { method: Method::Get, target, path, uri, body: Body::Empty }),
            Err(_) => Err(Error::MalformedRequest),
        }
    }
}

/// A character that stands for itself in a path segment.
pub open spec fn is_unreserved_char(c: char) -> bool {
    '\0' <= c <= '\u{7f}' && is_unreserved(c as u8)
}

proof fn lemma_encode_unreserved(id: Seq<char>)
    requires
        forall|i: int| 0 <= i < id.len() ==> is_unreserved_char(#[trigger] id[i]),
    ensures
        pct_encode(encode_utf8(id)) == id,
    decreases id.len(),
{
    assert forall|i: int| 0 <= i < id.len() implies '\0' <= #[trigger] id[i] <= '\u{7f}' by {
        assert(is_unreserved_char(id[i]));
    }
    is_ascii_chars_encode_utf8(id);
    let b = encode_utf8(id);
    if id.len() > 0 {
        let rest = id.drop_first();
        is_ascii_chars_encode_utf8(rest);
        assert(is_unreserved_char(id[0]));
        assert forall|i: int| 0 <= i < rest.len() implies is_unreserved_char(#[trigger] rest[i]) by {
            assert(rest[i] == id[i + 1]);
        }
        lemma_encode_unreserved(rest);
        assert(b.drop_first() =~= encode_utf8(rest));
        assert(id[0] as u8 == b[0]);
        assert((b[0] as char) == id[0]);
        assert(pct_encode(b) =~= id);
    } else {
        assert(b =~= Seq::<u8>::empty());
        assert(pct_encode(b) =~= id);
    }
}

/// For an id whose characters all stand for themselves in a URI, the request
/// for its account details on `host` has the path `/accounts/{id}` exactly,
/// and its URI is read from `{host}/accounts/{id}`.
pub proof fn lemma_safe_id_path(host: Seq<char>, id: Seq<char>)
    requires
        forall|i: int| 0 <= i < id.len() ==> is_unreserved_char(#[trigger] id[i]),
    ensures
        details_request(host, id).path == "/accounts/"@ + id,
        details_request(host, id).target == host + "/accounts/"@ + id,
        details_request(host, id).method == Method::Get,
        details_request(host, id).body == Body::Empty,
{
    lemma_encode_unreserved(id);
    assert(host + ("/accounts/"@ + id) =~= host + "/accounts/"@ + id);
}

proof fn lemma_hex_round_trip(n: u8)
    requires
        n < 16,
    ensures
        hex_value(hex_digit(n)) == Some(n),
{
}

proof fn lemma_decode_encode(b: Seq<u8>)
    ensures
        pct_decode(pct_encode(b)) == b,
    decreases b.len(),
{
    if b.len() > 0 {
        let x = b[0];
        let rest = pct_encode(b.drop_first());
        let s = pct_encode(b);
        assert(s == encode_byte(x) + rest);
        lemma_decode_encode(b.drop_first());
        if is_unreserved(x) {
            assert(s[0] == x as char);
            assert(s.drop_first() =~= rest);
            assert((x as char) as u8 == x);
        } else {
            lemma_hex_round_trip(x / 16);
            lemma_hex_round_trip(x % 16);
            assert(s.subrange(3, s.len() as int) =~= rest);
            assert(s[1] == hex_digit(x / 16));
            assert(s[2] == hex_digit(x % 16));
            assert(((x / 16) * 16 + x % 16) as u8 == x);
        }
        assert(pct_decode(s) =~= b);
    }
}

/// The path of an account's request decodes back to the account's id: its
/// segment after `/accounts/` percent-decodes to the UTF-8 bytes of the id.
pub proof fn lemma_path_decodes_to_id(host: Seq<char>, id: Seq<char>)
    ensures
        details_request(host, id).path == "/accounts/"@ + account_segment(id),
        pct_decode(account_segment(id)) == encode_utf8(id),
{
    lemma_decode_encode(encode_utf8(id));
}

/// Converting the same account details into a request twice, on the same
/// host, gives the same outcome: both fail, or both give requests with equal
/// method, URI text, path and body.
pub proof fn lemma_into_request_idempotent(
    host: Seq<char>,
    id: Seq<char>,
    r1: Result<Request, Error>,
    r2: Result<Request, Error>,
)
    requires
        details_request_result(host, id, r1),
        details_request_result(host, id, r2),
    ensures
        r1 is Ok <==> r2 is Ok,
        r1 is Ok ==> r1->Ok_0@ == r2->Ok_0@,
        r1 is Err ==> r1 == r2,
{
}

} // verus!
