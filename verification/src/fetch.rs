//! The `fetch` function of page scripts: from the parameters a script gives
//! to the request that the host sends, and from what came back to the value
//! the script receives.

use vstd::prelude::*;
use vstd::string::*;
use vstd::utf8::*;

use crate::problems::{problem_line, ProblemLog};
use crate::text::same_text;

verus! {

/// A byte that may stand in an HTTP header name (a token character; upper
/// case letters are accepted and stand for lower case ones).
pub open spec fn is_header_name_byte(b: u8) -> bool {
    ||| 33 <= b <= 39
    ||| b == 42
    ||| b == 43
    ||| b == 45
    ||| b == 46
    ||| 48 <= b <= 57
    ||| 65 <= b <= 90
    ||| 94 <= b <= 122
    ||| b == 124
    ||| b == 126
}

/// Whether bytes form an HTTP header name: between 1 and 65535 name bytes.
pub open spec fn valid_header_name(bytes: Seq<u8>) -> bool {
    &&& 1 <= bytes.len() <= 65535
    &&& forall|k: int| 0 <= k < bytes.len() ==> is_header_name_byte(#[trigger] bytes[k])
}

/// A byte that may stand in an HTTP header value: a tab, or any byte from
/// 32 up but for 127.
pub open spec fn is_header_value_byte(b: u8) -> bool {
    (b >= 32 && b != 127) || b == 9
}

/// Whether bytes form an HTTP header value.
pub open spec fn valid_header_value(bytes: Seq<u8>) -> bool {
    forall|k: int| 0 <= k < bytes.len() ==> is_header_value_byte(#[trigger] bytes[k])
}

/// Wraps `reqwest::header::HeaderName::from_bytes` (the `http` crate's),
/// which succeeds exactly on the bytes that `valid_header_name` describes:
/// its source maps each byte through a table whose non-zero entries are the
/// name bytes, and refuses an empty name and one longer than 65535 bytes.
#[verifier::external_body]
fn header_name_accepted(name: &[u8]) -> (r: bool)
    ensures
        r == valid_header_name(name@),
{
    reqwest::header::HeaderName::from_bytes(name).is_ok()
}

/// Wraps `reqwest::header::HeaderValue::from_str` (the `http` crate's), which
/// succeeds exactly when every byte of the text is a header value byte.
#[verifier::external_body]
fn header_value_accepted(value: &str) -> (r: bool)
    ensures
        r == valid_header_value(value.spec_bytes()),
{
    reqwest::header::HeaderValue::from_str(value).is_ok()
}

/// The parameters a script hands to `fetch`, as the host read them from the
/// script's table.
pub struct FetchParams {
    /// `url`, if it was given as a string.
    pub url: Option<String>,
    /// `method`, if it was given as a string.
    pub method: Option<String>,
    /// `headers`, if it was given as a table: its pairs in the order the
    /// table was walked, each `None` where a pair could not be read as two
    /// strings.
    pub headers: Option<Vec<Option<(String, String)>>>,
    /// `body`, if it was given as a string.
    pub body: Option<String>,
}

/// The request methods that `fetch` sends.
#[derive(Clone, Copy, Debug, PartialEq, Eq, Structural)]
pub enum HttpMethod {
    Get,
    Post,
    Put,
    Delete,
}

/// A request for the host to send.
pub struct FetchRequest {
    pub url: String,
    pub method: HttpMethod,
    /// Header name and value pairs, inserted in this order (a later pair
    /// replaces an earlier one of the same name).
    pub headers: Vec<(String, String)>,
    /// The body; none for `GET`.
    pub body: Option<String>,
}

/// What `fetch` does with valid parameters.
pub enum FetchPlan {
    /// Send the request.
    Send(FetchRequest),
    /// Send nothing and give the script this text.
    Reply(String),
}

/// Parameters that `fetch` refuses.
#[derive(Debug, PartialEq, Eq, Structural)]
pub enum FetchError {
    /// No `url`: the script gets the error "url is required".
    MissingUrl,
    /// No `method`: the script gets the error "method is required".
    MissingMethod,
    /// No `headers` table: the script gets the error "headers is required".
    MissingHeaders,
    /// The pair at this index has no valid header name; the host stops.
    InvalidHeaderName(usize),
    /// The pair at this index has a valid name and an invalid value; the
    /// host stops.
    InvalidHeaderValue(usize),
}

impl FetchError {
    /// The error that the script gets, for the errors a script can get.
    pub fn script_message(&self) -> (r: Option<&'static str>)
        ensures
            match *self {
                FetchError::MissingUrl => r is Some && r->0@ == "url is required"@,
                FetchError::MissingMethod => r is Some && r->0@ == "method is required"@,
                FetchError::MissingHeaders => r is Some && r->0@ == "headers is required"@,
                _ => r is None,
            },
    {
        match self {
            FetchError::MissingUrl => Some("url is required"),
            FetchError::MissingMethod => Some("method is required"),
            FetchError::MissingHeaders => Some("headers is required"),
            _ => None,
        }
    }
}

/// The name of a header pair as text; an unreadable pair counts as two
/// empty strings.
pub open spec fn pair_name(p: Option<(String, String)>) -> Seq<char> {
    match p {
        Some(kv) => kv.0@,
        None => Seq::empty(),
    }
}

/// The value of a header pair as text.
pub open spec fn pair_value(p: Option<(String, String)>) -> Seq<char> {
    match p {
        Some(kv) => kv.1@,
        None => Seq::empty(),
    }
}

/// Whether a header pair can be sent: its name and its value are valid.
pub open spec fn pair_ok(p: Option<(String, String)>) -> bool {
    valid_header_name(encode_utf8(pair_name(p))) && valid_header_value(encode_utf8(pair_value(p)))
}

/// Whether `url`, `method` and `headers` were all given.
pub open spec fn params_complete(p: FetchParams) -> bool {
    p.url is Some && p.method is Some && p.headers is Some
}

/// The header pairs given, if any.
pub open spec fn header_pairs(p: FetchParams) -> Seq<Option<(String, String)>> {
    match p.headers {
        Some(h) => h@,
        None => Seq::empty(),
    }
}

/// The body to send: the one given, or `{}`.
pub open spec fn body_text(p: FetchParams) -> Seq<char> {
    match p.body {
        Some(b) => b@,
        None => "{}"@,
    }
}

/// Whether every header pair can be sent.
pub open spec fn headers_ok(pairs: Seq<Option<(String, String)>>) -> bool {
    forall|j: int| 0 <= j < pairs.len() ==> pair_ok(#[trigger] pairs[j])
}

/// Whether `i` is the index of the first header pair that cannot be sent.
pub open spec fn first_bad_pair(pairs: Seq<Option<(String, String)>>, i: int) -> bool {
    &&& 0 <= i < pairs.len()
    &&& !pair_ok(pairs[i])
    &&& forall|j: int| 0 <= j < i ==> pair_ok(#[trigger] pairs[j])
}

/// Whether the header list holds the given pairs, in order.
pub open spec fn same_pairs(hs: Seq<(String, String)>, pairs: Seq<Option<(String, String)>>) -> bool {
    &&& hs.len() == pairs.len()
    &&& forall|j: int|
        0 <= j < pairs.len() ==> (#[trigger] hs[j]).0@ == pair_name(pairs[j]) && hs[j].1@
            == pair_value(pairs[j])
}

/// The name of a request method on the wire.
pub open spec fn method_token(m: HttpMethod) -> Seq<char> {
    match m {
        HttpMethod::Get => "GET"@,
        HttpMethod::Post => "POST"@,
        HttpMethod::Put => "PUT"@,
        HttpMethod::Delete => "DELETE"@,
    }
}

/// The method that `fetch` sends for a method name, if it sends one.
pub open spec fn method_of(name: Seq<char>) -> Option<HttpMethod> {
    if name == "GET"@ {
        Some(HttpMethod::Get)
    } else if name == "POST"@ {
        Some(HttpMethod::Post)
    } else if name == "PUT"@ {
        Some(HttpMethod::Put)
    } else if name == "DELETE"@ {
        Some(HttpMethod::Delete)
    } else {
        None
    }
}

fn method_named(name: &str) -> (r: Option<HttpMethod>)
    ensures
        r == method_of(name@),
{
    if same_text(name, "GET") {
        Some(HttpMethod::Get)
    } else if same_text(name, "POST") {
        Some(HttpMethod::Post)
    } else if same_text(name, "PUT") {
        Some(HttpMethod::Put)
    } else if same_text(name, "DELETE") {
        Some(HttpMethod::Delete)
    } else {
        None
    }
}

/// Checks the header pairs in order: the index of the first pair that cannot
/// be sent, and whether its name is at fault; the pairs themselves when all
/// can be sent.
fn check_headers(pairs: &Vec<Option<(String, String)>>) -> (r: Result<
    Vec<(String, String)>,
    FetchError,
>)
    ensures
        match r {
            Ok(hs) => headers_ok(pairs@) && same_pairs(hs@, pairs@),
            Err(FetchError::InvalidHeaderName(i)) => first_bad_pair(pairs@, i as int)
                && !valid_header_name(encode_utf8(pair_name(pairs@[i as int]))),
            Err(FetchError::InvalidHeaderValue(i)) => first_bad_pair(pairs@, i as int)
                && valid_header_name(encode_utf8(pair_name(pairs@[i as int]))),
            Err(_) => false,
        },
{
    let mut hs: Vec<(String, String)> = Vec::new();
    let mut i: usize = 0;
    while i < pairs.len()
        invariant
            i <= pairs.len(),
            forall|j: int| 0 <= j < i ==> pair_ok(#[trigger] pairs@[j]),
            hs@.len() == i,
            forall|j: int|
                0 <= j < i ==> (#[trigger] hs@[j]).0@ == pair_name(pairs@[j]) && hs@[j].1@
                    == pair_value(pairs@[j]),
        decreases pairs.len() - i,
    {
        let (name, value): (String, String) = match &pairs[i] {
            Some(kv) => (kv.0.clone(), kv.1.clone()),
            None => (String::new(), String::new()),
        };
        if !header_name_accepted(name.as_str().as_bytes()) {
            return Err(FetchError::InvalidHeaderName(i));
        }
        if !header_value_accepted(value.as_str()) {
            return Err(FetchError::InvalidHeaderValue(i));
        }
        hs.push((name, value));
        i += 1;
    }
    Ok(hs)
}

/// Plans a `fetch`. `url`, `method` and `headers` are required, and checked
/// in that order; then every header pair must have a valid name and value
/// (an unreadable pair counts as two empty strings, whose name is invalid);
/// then `GET` sends no body, `POST`, `PUT` and `DELETE` send the given body
/// or `{}`, and any other method sends nothing and replies
/// "Unsupported method: " and the method.
pub fn plan_fetch(params: FetchParams) -> (r: Result<FetchPlan, FetchError>)
    ensures
        match r {
            Err(FetchError::MissingUrl) => params.url is None,
            Err(FetchError::MissingMethod) => params.url is Some && params.method is None,
            Err(FetchError::MissingHeaders) => {
                &&& params.url is Some
                &&& params.method is Some
                &&& params.headers is None
            },
            Err(FetchError::InvalidHeaderName(i)) => {
                &&& params_complete(params)
                &&& first_bad_pair(header_pairs(params), i as int)
                &&& !valid_header_name(encode_utf8(pair_name(header_pairs(params)[i as int])))
            },
            Err(FetchError::InvalidHeaderValue(i)) => {
                &&& params_complete(params)
                &&& first_bad_pair(header_pairs(params), i as int)
                &&& valid_header_name(encode_utf8(pair_name(header_pairs(params)[i as int])))
            },
            Ok(FetchPlan::Reply(text)) => {
                &&& params_complete(params)
                &&& headers_ok(header_pairs(params))
                &&& method_of(params.method->0@) is None
                &&& text@ == "Unsupported method: "@ + params.method->0@
            },
            Ok(FetchPlan::Send(req)) => {
                &&& params_complete(params)
                &&& headers_ok(header_pairs(params))
                &&& method_of(params.method->0@) == Some(req.method)
                &&& req.url@ == params.url->0@
                &&& same_pairs(req.headers@, header_pairs(params))
                &&& req.body == None::<String> <==> req.method == HttpMethod::Get
                &&& req.body is Some ==> req.body->0@ == body_text(params)
                &&& params.method->0@ == method_token(req.method)
                &&& req.body is Some ==> match params.body {
                    Some(given) => req.body->0@ == given@,
                    None => req.body->0@ == "{}"@,
                }
            },
        },
{
    let FetchParams { url, method, headers, body } = params;
    let url = match url {
        Some(u) => u,
        None => return Err(FetchError::MissingUrl),
    };
    let method = match method {
        Some(m) => m,
        None => return Err(FetchError::MissingMethod),
    };
    let pairs = match headers {
        Some(h) => h,
        None => return Err(FetchError::MissingHeaders),
    };
    let body: String = match body {
        Some(b) => b,
        None => "{}".to_owned(),
    };
    let hs = match check_headers(&pairs) {
        Ok(hs) => hs,
        Err(e) => {
            return Err(e);
        },
    };
    match method_named(method.as_str()) {
        Some(m) => {
            let b = if m == HttpMethod::Get {
                None
            } else {
                Some(body)
            };
            Ok(FetchPlan::Send(FetchRequest { url, method: m, headers: hs, body: b }))
        },
        None => {
            let mut text = "Unsupported method: ".to_owned();
            text.append(method.as_str());
            Ok(FetchPlan::Reply(text))
        },
    }
}

/// `fetch` sends exactly the four methods `GET`, `POST`, `PUT` and `DELETE`,
/// each under its own name and no other.
pub proof fn law_method_names(name: Seq<char>, m: HttpMethod)
    ensures
        method_of(name) == Some(m) <==> name == method_token(m),
        method_token(HttpMethod::Get) == "GET"@,
        method_token(HttpMethod::Post) == "POST"@,
        method_token(HttpMethod::Put) == "PUT"@,
        method_token(HttpMethod::Delete) == "DELETE"@,
{
    reveal_strlit("GET");
    reveal_strlit("POST");
    reveal_strlit("PUT");
    reveal_strlit("DELETE");
    if name == method_token(m) {
        assert("GET"@ != "POST"@ && "GET"@ != "PUT"@ && "GET"@ != "DELETE"@) by {
            assert("GET"@[0] != "POST"@[0]);
            assert("GET"@[0] != "PUT"@[0]);
            assert("GET"@[0] != "DELETE"@[0]);
        }
        assert("POST"@ != "PUT"@ && "POST"@ != "DELETE"@) by {
            assert("POST"@[1] != "PUT"@[1]);
            assert("POST"@[0] != "DELETE"@[0]);
        }
        assert("PUT"@ != "DELETE"@) by {
            assert("PUT"@[0] != "DELETE"@[0]);
        }
    }
}

/// A body that the script gives is sent as it is, empty or not; `{}` is sent
/// only when the script gives none.
pub proof fn law_body_given_is_sent(p: FetchParams)
    ensures
        p.body is Some ==> body_text(p) == p.body->0@,
        p.body is None ==> body_text(p) == "{}"@,
{
}

/// A header pair that could not be read is never sent: it counts as an
/// empty name, which is not a header name.
pub proof fn law_unreadable_pair_refused()
    ensures
        !pair_ok(None),
{
    assert(encode_utf8(Seq::<char>::empty()) =~= Seq::<u8>::empty());
}

/// How the response body was read.
pub enum ResponseBody {
    /// It was JSON; the host keeps the parsed value.
    Json,
    /// It could not be read as JSON, for this reason.
    Unreadable(String),
}

/// What became of a request that the host sent.
pub enum FetchOutcome {
    /// Sending failed, for this reason.
    SendFailed(String),
    /// A response came with this status.
    Responded { status: u16, body: ResponseBody },
    /// The thread that made the request failed.
    Lost,
}

/// The value that the script receives from `fetch`.
#[derive(Debug)]
pub enum FetchReply {
    /// The JSON body of the response.
    Body,
    /// An object whose one field `status` holds the status code as a number.
    Status(u16),
    /// A string.
    Message(String),
    /// `nil`.
    Null,
}

/// The problem the host logs for an outcome, if any.
pub open spec fn outcome_problem(outcome: FetchOutcome) -> Option<Seq<char>> {
    match outcome {
        FetchOutcome::Responded { status, body: ResponseBody::Unreadable(e) } => Some(
            "failed to parse response body: "@ + e@,
        ),
        FetchOutcome::Lost => Some("Failed to join request thread at fetch request."@),
        _ => None,
    }
}

/// The problems that a fetch logs: an unreadable body, with its reason, and
/// a lost request.
pub proof fn law_fetch_problems(status: u16, reason: String)
    ensures
        outcome_problem(FetchOutcome::Responded { status, body: ResponseBody::Unreadable(reason) })
            == Some("failed to parse response body: "@ + reason@),
        outcome_problem(FetchOutcome::Lost) == Some(
            "Failed to join request thread at fetch request."@,
        ),
        outcome_problem(FetchOutcome::Responded { status, body: ResponseBody::Json }) is None,
        outcome_problem(FetchOutcome::SendFailed(reason)) is None,
{
}

/// Turns what became of a request into what the script receives: the JSON
/// body; for a body that is not JSON, an object holding the status (and an
/// error in the log); for a failed send, a message; for a lost request,
/// `nil` (and an error in the log).
pub fn fetch_reply(outcome: FetchOutcome, log: &mut ProblemLog) -> (r: FetchReply)
    ensures
        match outcome {
            FetchOutcome::SendFailed(e) => r matches FetchReply::Message(m) && m@
                == "Failed to send request: "@ + e@,
            FetchOutcome::Responded { status, body: ResponseBody::Json } => r == FetchReply::Body,
            FetchOutcome::Responded { status, body: ResponseBody::Unreadable(_) } => r
                == FetchReply::Status(status),
            FetchOutcome::Lost => r == FetchReply::Null,
        },
        match outcome_problem(outcome) {
            Some(p) => final(log)@ == old(log)@ + problem_line("error"@, p),
            None => final(log)@ == old(log)@,
        },
{
    match outcome {
        FetchOutcome::SendFailed(e) => {
            let mut m = "Failed to send request: ".to_owned();
            m.append(e.as_str());
            FetchReply::Message(m)
        },
        FetchOutcome::Responded { status, body } => match body {
            ResponseBody::Json => FetchReply::Body,
            ResponseBody::Unreadable(e) => {
                let mut p = "failed to parse response body: ".to_owned();
                p.append(e.as_str());
                log.record("error", p.as_str());
                FetchReply::Status(status)
            },
        },
        FetchOutcome::Lost => {
            log.record("error", "Failed to join request thread at fetch request.");
            FetchReply::Null
        },
    }
}

} // verus!
