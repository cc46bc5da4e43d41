use vstd::prelude::*;
use crate::error::{ClientError, ClientResult};
use vstd::utf8::encode_utf8;

verus! {

/// The timeout an `HttpProvider` gets when none is given, in milliseconds.
pub const DEFAULT_TIMEOUT_MS: u32 = 60000;

/// The cycles attached to each outgoing HTTP request of the canister.
pub const HTTP_REQUEST_CYCLES: u128 = 2_603_253_600;

/// The text of the JSON value that `serde_json` reads from `body`
/// (`Ok`, written back without spaces), or the text of its error (`Err`).
pub uninterp spec fn json_value_text(body: Seq<u8>) -> Result<Seq<char>, Seq<char>>;

/// Calls `serde_json::from_slice::<serde_json::Value>` and then `to_string`
/// on the value, or on the error; the outcome is given the name
/// `json_value_text`.
#[verifier::external_body]
fn reencode_json(body: &[u8]) -> (r: Result<String, String>)
    ensures
        match r {
            Ok(t) => json_value_text(body@) == Ok::<Seq<char>, Seq<char>>(t@),
            Err(e) => json_value_text(body@) == Err::<Seq<char>, Seq<char>>(e@),
        },
{
    match serde_json::from_slice::<serde_json::Value>(body) {
        Ok(value) => Ok(value.to_string()),
        Err(e) => Err(e.to_string()),
    }
}

/// A lower-case hexadecimal digit, as a byte of text.
pub open spec fn hex_digit(d: u8) -> u8 {
    if d < 10 {
        (48 + d) as u8
    } else {
        (87 + d) as u8
    }
}

/// How `serde_json` writes one byte of a string: a quote, a backslash and the
/// control bytes are escaped (`\b \t \n \f \r` where they have a short form,
/// `\u00` and two hexadecimal digits otherwise), every other byte is kept.
pub open spec fn json_escaped_byte(b: u8) -> Seq<u8> {
    if b == 0x08 {
        seq![92u8, 98u8]
    } else if b == 0x09 {
        seq![92u8, 116u8]
    } else if b == 0x0a {
        seq![92u8, 110u8]
    } else if b == 0x0c {
        seq![92u8, 102u8]
    } else if b == 0x0d {
        seq![92u8, 114u8]
    } else if b == 0x22 {
        seq![92u8, 34u8]
    } else if b == 0x5c {
        seq![92u8, 92u8]
    } else if b < 0x20 {
        seq![92u8, 117u8, 48u8, 48u8, hex_digit(b / 16), hex_digit(b % 16)]
    } else {
        seq![b]
    }
}

/// The escaped bytes of a string, one byte after the other.
pub open spec fn json_escaped(bytes: Seq<u8>) -> Seq<u8>
    decreases bytes.len(),
{
    if bytes.len() == 0 {
        seq![]
    } else {
        json_escaped(bytes.drop_last()) + json_escaped_byte(bytes.last())
    }
}

/// The JSON text that `serde_json` writes for a string: its UTF-8 bytes,
/// escaped, between quotes.
pub open spec fn json_string(text: Seq<char>) -> Seq<u8> {
    seq![34u8] + json_escaped(encode_utf8(text)) + seq![34u8]
}

/// Calls `serde_json::to_vec` on a string, which writes it quoted and
/// escaped as `json_string` states. Writing a string to memory cannot fail.
#[verifier::external_body]
fn quote_json(text: &str) -> (bytes: Vec<u8>)
    ensures
        bytes@ == json_string(text@),
{
    serde_json::to_vec(text).unwrap()
}

/// The JSON text of a JSON-RPC 2.0 request with id 0 that calls `method`,
/// with the JSON text `params` where there are parameters.
pub open spec fn rpc_request_text(method: Seq<char>, params: Option<Seq<u8>>) -> Seq<u8> {
    encode_utf8("{\"jsonrpc\":\"2.0\",\"id\":0,\"method\":"@) + json_string(method) + match params {
        Some(p) => encode_utf8(",\"params\":"@) + p,
        None => Seq::empty(),
    } + encode_utf8("}"@)
}

/// A request carries its parameters whole: between the `"params":` key and
/// the closing brace stand exactly the parameters' bytes, after the version,
/// the id and the quoted method's name.
pub proof fn lemma_request_carries_params_whole(method: Seq<char>, params: Seq<u8>)
    ensures
        rpc_request_text(method, Some(params)) == encode_utf8(
            "{\"jsonrpc\":\"2.0\",\"id\":0,\"method\":"@,
        ) + json_string(method) + encode_utf8(",\"params\":"@) + params + encode_utf8("}"@),
        ({
            let head = encode_utf8("{\"jsonrpc\":\"2.0\",\"id\":0,\"method\":"@) + json_string(method)
                + encode_utf8(",\"params\":"@);
            rpc_request_text(method, Some(params)).subrange(head.len() as int, (head.len() + params.len()) as int)
                == params
        }),
        rpc_request_text(method, None) == encode_utf8(
            "{\"jsonrpc\":\"2.0\",\"id\":0,\"method\":"@,
        ) + json_string(method) + encode_utf8("}"@),
{
    let head = encode_utf8("{\"jsonrpc\":\"2.0\",\"id\":0,\"method\":"@) + json_string(method)
        + encode_utf8(",\"params\":"@);
    let t = rpc_request_text(method, Some(params));
    assert(t =~= head + params + encode_utf8("}"@));
    assert(t.subrange(head.len() as int, (head.len() + params.len()) as int) =~= params);
    assert(rpc_request_text(method, None) =~= encode_utf8(
        "{\"jsonrpc\":\"2.0\",\"id\":0,\"method\":"@,
    ) + json_string(method) + encode_utf8("}"@));
}

fn append_bytes(out: &mut Vec<u8>, bytes: &[u8])
    ensures
        final(out)@ == old(out)@ + bytes@,
{
    let mut i: usize = 0;
    while i < bytes.len()
        invariant
            0 <= i <= bytes@.len(),
            out@ == old(out)@ + bytes@.take(i as int),
        decreases bytes@.len() - i,
    {
        out.push(bytes[i]);
        assert(bytes@.take(i + 1) =~= bytes@.take(i as int).push(bytes@[i as int]));
        i = i + 1;
    }
    assert(bytes@.take(bytes@.len() as int) =~= bytes@);
}

/// The body of a JSON-RPC request: version 2.0, id 0, the method's name, and
/// the parameters where there are any.
pub fn rpc_request_body(method: &str, params: Option<&[u8]>) -> (body: Vec<u8>)
    ensures
        body@ == rpc_request_text(
            method@,
            match params {
                Some(p) => Some(p@),
                None => None,
            },
        ),
        params matches Some(p) ==> body@ == encode_utf8("{\"jsonrpc\":\"2.0\",\"id\":0,\"method\":"@)
            + json_string(method@) + encode_utf8(",\"params\":"@) + p@ + encode_utf8("}"@),
        params is None ==> body@ == encode_utf8("{\"jsonrpc\":\"2.0\",\"id\":0,\"method\":"@)
            + json_string(method@) + encode_utf8("}"@),
{
    let mut body: Vec<u8> = Vec::new();
    append_bytes(&mut body, "{\"jsonrpc\":\"2.0\",\"id\":0,\"method\":".as_bytes());
    let quoted = quote_json(method);
    append_bytes(&mut body, quoted.as_slice());
    match params {
        Some(p) => {
            append_bytes(&mut body, ",\"params\":".as_bytes());
            append_bytes(&mut body, p);
        },
        None => {},
    }
    append_bytes(&mut body, "}".as_bytes());
    body
}

/// A JSON-RPC endpoint reached by the HTTP outcalls of the canister.
#[derive(Clone, Debug)]
pub struct HttpProvider {
    url: String,
    timeout: u32,
}

impl View for HttpProvider {
    type V = (Seq<char>, u32);

    closed spec fn view(&self) -> (Seq<char>, u32) {
        (self.url@, self.timeout)
    }
}

/// The method of an HTTP request.
#[derive(Clone, Copy, Debug, PartialEq, Eq, Structural)]
pub enum HttpMethod {
    Get,
    Post,
    Head,
}

/// A header of an HTTP request.
#[derive(Clone, Debug)]
pub struct HttpHeader {
    pub name: String,
    pub value: String,
}

/// An HTTP outcall of the canister: what is sent, and the cycles paid for it.
/// No transform function is attached to it.
#[derive(Clone, Debug)]
pub struct HttpRequest {
    pub url: String,
    pub max_response_bytes: Option<u64>,
    pub method: HttpMethod,
    pub headers: Vec<HttpHeader>,
    pub body: Option<Vec<u8>>,
    pub cycles: u128,
}

/// The message of a reply whose HTTP status is not 200.
pub open spec fn http_error_message(body: Seq<u8>) -> Seq<char> {
    match json_value_text(body) {
        Ok(text) => "HTTP error: "@ + text,
        Err(e) => e,
    }
}

impl HttpProvider {
    pub fn new(url: &str) -> (p: HttpProvider)
        ensures
            p@ == (url@, DEFAULT_TIMEOUT_MS),
    {
        HttpProvider { url: url.to_owned(), timeout: DEFAULT_TIMEOUT_MS }
    }

    pub fn new_with_timeout(url: &str, timeout: u32) -> (p: HttpProvider)
        ensures
            p@ == (url@, timeout),
    {
        HttpProvider { url: url.to_owned(), timeout }
    }

    pub fn url(&self) -> (url: &str)
        ensures
            url@ == self@.0,
    {
        self.url.as_str()
    }

    pub fn timeout(&self) -> (t: u32)
        ensures
            t == self@.1,
    {
        self.timeout
    }

    /// The outcall that carries a JSON-RPC request with the JSON text `body`:
    /// a POST of `body` to the provider's URL as `application/json`, leaving
    /// the limit on the reply's size to the platform's default.
    pub fn rpc_request(&self, body: Vec<u8>) -> (r: HttpRequest)
        ensures
            r.url@ == self@.0,
            r.method == HttpMethod::Post,
            r.max_response_bytes is None,
            r.headers@.len() == 1,
            r.headers@[0].name@ == "Content-Type"@,
            r.headers@[0].value@ == "application/json"@,
            r.body == Some(body),
            r.cycles == HTTP_REQUEST_CYCLES,
    {
        let mut headers: Vec<HttpHeader> = Vec::new();
        headers.push(
            HttpHeader { name: "Content-Type".to_owned(), value: "application/json".to_owned() },
        );
        HttpRequest {
            url: self.url.clone(),
            max_response_bytes: None,
            method: HttpMethod::Post,
            headers,
            body: Some(body),
            cycles: HTTP_REQUEST_CYCLES,
        }
    }
}

/// The body of a reply to a JSON-RPC request, for the caller to read:
/// handed on as it came where the HTTP status is 200, an error otherwise.
pub fn rpc_reply_body(status: u64, body: Vec<u8>) -> (r: ClientResult<Vec<u8>>)
    ensures
        status == 200 ==> r == Ok::<Vec<u8>, ClientError>(body),
        status != 200 ==> (r matches Err(e) && e@ == http_error_message(body@)),
{
    if status == 200 {
        Ok(body)
    } else {
        match reencode_json(body.as_slice()) {
            Ok(text) => {
                let mut message = "HTTP error: ".to_owned();
                message.append(text.as_str());
                Err(ClientError::new(message))
            },
            Err(e) => Err(ClientError::new(e)),
        }
    }
}

/// Where JSON-RPC requests go.
#[derive(Clone, Debug)]
pub enum Provider {
    Http(HttpProvider),
}

impl View for Provider {
    type V = (Seq<char>, u32);

    open spec fn view(&self) -> (Seq<char>, u32) {
        match self {
            Provider::Http(h) => h@,
        }
    }
}

impl Provider {
    pub fn new(url: &str) -> (p: Provider)
        ensures
            p@ == (url@, DEFAULT_TIMEOUT_MS),
    {
        Provider::Http(HttpProvider::new(url))
    }
}

} // verus!
