//! The wire protocol: building one request, splitting one response into head
//! and body at the first blank-line boundary, and parsing the status line.
//!
//! One request is sent per connection and the connection is closed after one
//! exchange; the exchange itself (opening the socket, writing, reading) is
//! outside this library, which only states what the bytes on the wire are.

use vstd::prelude::*;

verus! {

use vstd::string::StrSliceExecFns;
use vstd::string::StringSliceAdditionalSpecFns;
use vstd::string::StringExecFns;
use crate::num::{dec_digits, dec_value, lemma_dec_digits_value, is_i32_token, i32_token_value,
    parse_i32_token};
use crate::text::{index_of_char, index_of_match, lemma_index_of_char, lemma_index_of_match,
    trimmed, find_char, find_match, substring, trim};

/// Outcome of an HTTP exchange, from the transport's point of view.
#[derive(Debug)]
pub enum TransportError {
    /// The peer could not be reached, or the exchange failed mid-way.
    Unreachable,
    /// The status line of the response could not be parsed.
    Protocol,
}

/// The parsed status line of a response.
#[derive(Debug)]
pub struct HttpStatus {
    pub status_code: i32,
    pub status_message: String,
}

/// A response split into its parsed status line and its body text.
#[derive(Debug)]
pub struct ParsedResponse {
    pub status: HttpStatus,
    /// The text after the first blank-line boundary; empty when the boundary
    /// is absent.
    pub body: String,
    /// Whether the blank-line boundary was present at all: a response without
    /// one still parses, with an empty body, and callers that need a body can
    /// tell the two apart.
    pub has_body: bool,
}

/// The first line of `s`: everything before the first line feed, with one
/// trailing carriage return removed.
pub open spec fn status_line(s: Seq<char>) -> Seq<char> {
    let raw = s.subrange(0, index_of_char(s, '\n'));
    if raw.len() > 0 && raw.last() == '\r' {
        raw.drop_last()
    } else {
        raw
    }
}

/// What parsing the status line of head `s` yields: the code and the
/// message, or nothing when the line does not read `<version> <code>
/// <message...>` with an integer code.
pub open spec fn parse_status_spec(s: Seq<char>) -> Option<(int, Seq<char>)> {
    let line = status_line(s);
    let sp1 = index_of_char(line, ' ');
    if sp1 == line.len() {
        None
    } else {
        let rest = line.subrange(sp1 + 1, line.len() as int);
        let sp2 = index_of_char(rest, ' ');
        let code_tok = rest.subrange(0, sp2);
        let msg_raw = if sp2 == rest.len() {
            Seq::<char>::empty()
        } else {
            rest.subrange(sp2 + 1, rest.len() as int)
        };
        if is_i32_token(code_tok) {
            Some((i32_token_value(code_tok), trimmed(msg_raw)))
        } else {
            None
        }
    }
}

impl HttpStatus {
    /// Parses the first line of a response head as `<version> <code>
    /// <message...>`: `Some` exactly when the code token is an integer, with
    /// the message trimmed of surrounding whitespace.
    pub fn parse(s: &str) -> (r: Option<HttpStatus>)
        ensures
            r is Some <==> parse_status_spec(s@) is Some,
            r is Some ==> r->0.status_code as int == (parse_status_spec(s@)->0).0,
            r is Some ==> r->0.status_message@ == (parse_status_spec(s@)->0).1,
    {
        proof {
            lemma_index_of_char(s@, '\n');
        }
        let nl = find_char(s, '\n');
        let raw = substring(s, 0, nl);
        let raw_len = nl;
        let line: String = if raw_len > 0 && raw.as_str().get_char(raw_len - 1) == '\r' {
            proof {
                assert(raw@.subrange(0, raw_len - 1) =~= status_line(s@));
            }
            substring(raw.as_str(), 0, raw_len - 1)
        } else {
            raw
        };
        proof {
            assert(line@ == status_line(s@));
            lemma_index_of_char(line@, ' ');
        }
        let line_len = line.as_str().unicode_len();
        let sp1 = find_char(line.as_str(), ' ');
        if sp1 == line_len {
            return None;
        }
        let rest = substring(line.as_str(), sp1 + 1, line_len);
        proof {
            lemma_index_of_char(rest@, ' ');
        }
        let rest_len = line_len - (sp1 + 1);
        let sp2 = find_char(rest.as_str(), ' ');
        let code_tok = substring(rest.as_str(), 0, sp2);
        match parse_i32_token(code_tok.as_str()) {
            None => None,
            Some(code) => {
                let msg_raw: String = if sp2 == rest_len {
                    String::new()
                } else {
                    substring(rest.as_str(), sp2 + 1, rest_len)
                };
                let message = trim(msg_raw.as_str());
                Some(HttpStatus { status_code: code, status_message: message })
            },
        }
    }

    /// Success is status code exactly 200: no other code, 2xx or otherwise,
    /// counts.
    pub fn success(&self) -> (r: bool)
        ensures
            r == (self.status_code == 200),
    {
        self.status_code == 200
    }
}

/// How a status classifies for callers that branch on it.
pub enum StatusClass {
    /// Code exactly 200.
    Success,
    /// Codes 400 through 499.
    ClientError(i32),
    /// Codes 500 through 599.
    ServerError(i32),
    /// Any other code, 201 and 404 siblings included.
    Other(i32),
    /// No status line could be parsed at all.
    Malformed,
}

/// Classifies a parsed (or unparseable) status.
pub fn classify_status(st: &Option<HttpStatus>) -> (r: StatusClass)
    ensures
        st is None <==> r is Malformed,
        st is Some && st->0.status_code == 200 <==> r is Success,
        st is Some && 400 <= st->0.status_code < 500 <==> r is ClientError,
        st is Some && (st->0.status_code < 200 || (200 < st->0.status_code < 400)
            || st->0.status_code >= 600) <==> r is Other,
        st is Some && 500 <= st->0.status_code < 600 <==> r is ServerError,
        match r {
            StatusClass::ClientError(c) => c == st->0.status_code,
            StatusClass::ServerError(c) => c == st->0.status_code,
            StatusClass::Other(c) => c == st->0.status_code,
            _ => true,
        },
{
    match st {
        None => StatusClass::Malformed,
        Some(status) => {
            let code = status.status_code;
            if code == 200 {
                StatusClass::Success
            } else if 400 <= code && code < 500 {
                StatusClass::ClientError(code)
            } else if 500 <= code && code < 600 {
                StatusClass::ServerError(code)
            } else {
                StatusClass::Other(code)
            }
        },
    }
}

/// The blank-line boundary between head and body.
pub open spec fn boundary() -> Seq<char> {
    "\r\n\r\n"@
}

/// The head of a response: everything before the first blank-line boundary,
/// or the whole response when there is none.
pub open spec fn response_head(r: Seq<char>) -> Seq<char> {
    r.subrange(0, index_of_match(r, boundary()))
}

/// The body of a response: everything after the first blank-line boundary,
/// or empty when there is none.
pub open spec fn response_body(r: Seq<char>) -> Seq<char> {
    let i = index_of_match(r, boundary());
    if i == r.len() {
        Seq::<char>::empty()
    } else {
        r.subrange(i + boundary().len() as int, r.len() as int)
    }
}

/// Whether the blank-line boundary occurs in the response at all.
pub open spec fn has_boundary(r: Seq<char>) -> bool {
    index_of_match(r, boundary()) < r.len()
}

/// A response without the blank-line boundary has an empty body, by
/// definition and for every caller: the absence is no error.
pub proof fn lemma_no_boundary_means_empty_body(r: Seq<char>)
    requires
        !has_boundary(r),
    ensures
        response_body(r) == Seq::<char>::empty(),
{
    reveal_strlit("\r\n\r\n");
    lemma_index_of_match(r, boundary());
}

/// Splits a full response and parses its status line.
///
/// A response without a blank-line boundary is not an error: it parses to an
/// empty body. The only error is a status line that does not parse.
pub fn parse_response(resp: &str) -> (r: Result<ParsedResponse, TransportError>)
    ensures
        r is Ok <==> parse_status_spec(response_head(resp@)) is Some,
        r is Err ==> r->Err_0 is Protocol,
        r is Ok ==> r->Ok_0.status.status_code as int
            == (parse_status_spec(response_head(resp@))->0).0,
        r is Ok ==> r->Ok_0.status.status_message@
            == (parse_status_spec(response_head(resp@))->0).1,
        r is Ok ==> r->Ok_0.body@ == response_body(resp@),
        r is Ok ==> r->Ok_0.has_body == has_boundary(resp@),
{
    proof {
        reveal_strlit("\r\n\r\n");
        lemma_index_of_match(resp@, boundary());
    }
    let n = resp.unicode_len();
    let i = find_match(resp, "\r\n\r\n");
    let head = substring(resp, 0, i);
    let (body, has_body): (String, bool) = if i == n {
        (String::new(), false)
    } else {
        (substring(resp, i + 4, n), true)
    };
    match HttpStatus::parse(head.as_str()) {
        None => Err(TransportError::Protocol),
        Some(status) => Ok(ParsedResponse { status, body, has_body }),
    }
}

/// The fixed text between the request target and the host.
pub open spec fn request_line_glue() -> Seq<char> {
    " HTTP/1.1\r\nHost: "@
}

/// The fixed headers between the host and the content-length digits.
pub open spec fn request_headers_glue() -> Seq<char> {
    "\r\nContent-Type: application/json\r\nContent-Length: "@
}

/// The fixed tail after the content-length digits: the connection-close
/// header and the blank line before the body.
pub open spec fn request_tail_glue() -> Seq<char> {
    "\r\nConnection: close\r\n\r\n"@
}

/// Everything of a request before its content-length digits.
pub open spec fn request_prefix(verb_path: Seq<char>, host: Seq<char>) -> Seq<char> {
    verb_path + request_line_glue() + host + request_headers_glue()
}

/// A whole request: the prefix, the decimal rendering of the body's byte
/// length, the fixed tail, then the body itself.
pub open spec fn request_chars(
    verb_path: Seq<char>,
    host: Seq<char>,
    body_byte_len: nat,
    body: Seq<char>,
) -> Seq<char> {
    request_prefix(verb_path, host) + dec_digits(body_byte_len) + request_tail_glue() + body
}

/// In every request built, the digits standing in the `Content-Length` header
/// denote exactly the byte length of the body that follows the blank line.
pub proof fn lemma_content_length_is_body_byte_length(
    verb_path: Seq<char>,
    host: Seq<char>,
    body: &str,
)
    ensures
        ({
            let n = body.spec_bytes().len();
            let req = request_chars(verb_path, host, n, body@);
            let p = request_prefix(verb_path, host).len() as int;
            let d = dec_digits(n).len() as int;
            &&& req.subrange(p, p + d) == dec_digits(n)
            &&& dec_value(req.subrange(p, p + d)) == n
        }),
{
    let n = body.spec_bytes().len();
    let req = request_chars(verb_path, host, n, body@);
    let p = request_prefix(verb_path, host).len() as int;
    let d = dec_digits(n).len() as int;
    lemma_dec_digits_value(n);
    assert(req.subrange(p, p + d) =~= dec_digits(n));
}

/// Where one exchange goes: the configured registry endpoint. The connection
/// itself is made outside this library, against this host and port.
pub struct TransportClient {
    pub host: String,
    pub port: u16,
}

/// The body that stands in for an absent one.
pub open spec fn effective_body(body: Option<&str>) -> Seq<char> {
    match body {
        Some(b) => b@,
        None => "{}"@,
    }
}

/// The byte length of the body as sent.
pub open spec fn effective_body_byte_len(body: Option<&str>) -> nat {
    match body {
        Some(b) => b.spec_bytes().len(),
        None => "{}".spec_bytes().len(),
    }
}

impl TransportClient {
    /// A client for one endpoint; no process-wide host or port.
    pub fn new(host: String, port: u16) -> (r: TransportClient)
        ensures
            r.host == host,
            r.port == port,
    {
        TransportClient { host, port }
    }

    /// Builds the one request of an exchange. An absent body is sent as the
    /// literal `{}`. The `Content-Length` digits are the byte length of the
    /// body as sent.
    pub fn build_request(&self, verb_path: &str, body: Option<&str>) -> (r: String)
        ensures
            r@ == request_chars(
                verb_path@,
                self.host@,
                effective_body_byte_len(body),
                effective_body(body),
            ),
    {
        let eff: &str = match body {
            Some(b) => b,
            None => "{}",
        };
        let byte_len = eff.as_bytes().len();
        let mut req = verb_path.to_owned();
        req.append(" HTTP/1.1\r\nHost: ");
        req.append(self.host.as_str());
        req.append("\r\nContent-Type: application/json\r\nContent-Length: ");
        let digits = crate::num::usize_to_dec(byte_len);
        req.append(digits.as_str());
        req.append("\r\nConnection: close\r\n\r\n");
        req.append(eff);
        proof {
            lemma_dec_digits_value(byte_len as nat);
            assert(req@ =~= request_chars(
                verb_path@,
                self.host@,
                eff.spec_bytes().len(),
                eff@,
            ));
            assert(eff@ == effective_body(body));
        }
        req
    }
}

} // verus!
