//! The requests of the control API: method, path and body of each operation.

use vstd::prelude::*;
use vstd::string::StringExecFns;

use crate::encoding::{append_decimal, decimal, encode_segment, segment};
use crate::endpoint::{aims_at, ControlEndpoint, Target};
use crate::error::{ClashError, Operation};
use crate::json::json_object;

verus! {

/// The probe address that a delay test uses where the caller names none.
pub const DEFAULT_DELAY_URL: &'static str = "http://www.gstatic.com/generate_204";

/// The time that a delay test may take where the caller names none, in
/// milliseconds.
pub const DEFAULT_DELAY_TIMEOUT: i32 = 5000;

/// The content type of every request body.
pub const JSON_CONTENT_TYPE: &'static str = "application/json";

/// The HTTP methods that the control API uses.
#[derive(Clone, Copy, Debug, PartialEq, Eq, Structural)]
pub enum Method {
    Get,
    Put,
    Patch,
}

impl Method {
    /// The method as it stands in a request line.
    pub open spec fn spec_token(self) -> Seq<char> {
        match self {
            Method::Get => "GET"@,
            Method::Put => "PUT"@,
            Method::Patch => "PATCH"@,
        }
    }

    /// The method as it stands in a request line.
    pub fn as_str(self) -> (r: &'static str)
        ensures
            r@ == self.spec_token(),
    {
        match self {
            Method::Get => "GET",
            Method::Put => "PUT",
            Method::Patch => "PATCH",
        }
    }
}

/// One request to the daemon.
#[derive(Clone, Debug, PartialEq, Eq)]
pub struct Request {
    pub operation: Operation,
    pub method: Method,
    pub target: Target,
    pub path: String,
    pub body: Option<Vec<u8>>,
}

impl Request {
    /// The content type to declare: that of JSON where the request has a
    /// body, none where it has no body.
    pub fn content_type(&self) -> (r: Option<&'static str>)
        ensures
            r is Some <==> self.body is Some,
            r is Some ==> r.unwrap()@ == JSON_CONTENT_TYPE@,
    {
        match &self.body {
            Some(_) => Some(JSON_CONTENT_TYPE),
            None => None,
        }
    }
}

/// The method of an operation.
pub open spec fn method_of(operation: Operation) -> Method {
    match operation {
        Operation::SelectProxy => Method::Put,
        Operation::UpdateConfig => Method::Patch,
        Operation::SetMode => Method::Patch,
        _ => Method::Get,
    }
}

/// The method of an operation.
pub fn method_for(operation: Operation) -> (r: Method)
    ensures
        r == method_of(operation),
{
    match operation {
        Operation::SelectProxy => Method::Put,
        Operation::UpdateConfig => Method::Patch,
        Operation::SetMode => Method::Patch,
        _ => Method::Get,
    }
}

/// The path of the proxy list.
pub open spec fn proxies_path() -> Seq<char> {
    "/proxies"@
}

/// The path of one proxy group.
pub open spec fn proxy_path(group_name: Seq<char>) -> Seq<char> {
    "/proxies/"@ + segment(group_name)
}

/// The probe address of a delay test.
pub open spec fn delay_url(url: Option<Seq<char>>) -> Seq<char> {
    match url {
        Some(url) => url,
        None => DEFAULT_DELAY_URL@,
    }
}

/// The time limit of a delay test.
pub open spec fn delay_timeout(timeout: Option<i32>) -> int {
    match timeout {
        Some(timeout) => timeout as int,
        None => DEFAULT_DELAY_TIMEOUT as int,
    }
}

/// The path and query of a delay test.
pub open spec fn delay_path(name: Seq<char>, url: Option<Seq<char>>, timeout: Option<i32>) -> Seq<
    char,
> {
    "/proxies/"@ + segment(name) + "/delay?url="@ + segment(delay_url(url)) + "&timeout="@
        + decimal(delay_timeout(timeout))
}

/// The path of the memory figures.
pub open spec fn memory_path() -> Seq<char> {
    "/memory"@
}

/// The path of the connections.
pub open spec fn connections_path() -> Seq<char> {
    "/connections"@
}

/// The path of the configuration.
pub open spec fn configs_path() -> Seq<char> {
    "/configs"@
}

/// Every path of the control API is absolute: it begins with a slash.
pub proof fn lemma_paths_absolute(name: Seq<char>, url: Option<Seq<char>>, timeout: Option<i32>)
    ensures
        proxies_path()[0] == '/',
        proxy_path(name)[0] == '/',
        delay_path(name, url, timeout)[0] == '/',
        memory_path()[0] == '/',
        connections_path()[0] == '/',
        configs_path()[0] == '/',
{
    reveal_strlit("/proxies");
    reveal_strlit("/proxies/");
    reveal_strlit("/memory");
    reveal_strlit("/connections");
    reveal_strlit("/configs");
}

/// The name of a group stays within the last segment of its path: behind
/// `/proxies/` the path holds no slash, question mark or number sign.
pub proof fn lemma_proxy_path_one_segment(group_name: Seq<char>, i: int)
    requires
        9 <= i < proxy_path(group_name).len(),
    ensures
        proxy_path(group_name).subrange(0, 9) == "/proxies/"@,
        proxy_path(group_name)[i] != '/',
        proxy_path(group_name)[i] != '?',
        proxy_path(group_name)[i] != '#',
{
    reveal_strlit("/proxies/");
    let encoded = segment(group_name);
    assert(proxy_path(group_name).subrange(0, 9) =~= "/proxies/"@);
    assert(proxy_path(group_name)[i] == encoded[i - 9]);
    crate::encoding::lemma_percent_encoded_chars(vstd::utf8::encode_utf8(group_name), i - 9);
}

/// Two groups with different names have different paths.
pub proof fn lemma_proxy_path_injective(a: Seq<char>, b: Seq<char>)
    requires
        proxy_path(a) == proxy_path(b),
    ensures
        a == b,
{
    reveal_strlit("/proxies/");
    assert(proxy_path(a).skip(9) =~= segment(a));
    assert(proxy_path(b).skip(9) =~= segment(b));
    crate::encoding::lemma_segment_injective(a, b);
}

/// The path of one proxy group, its name percent-encoded.
pub fn build_proxy_path(group_name: &str) -> (r: String)
    ensures
        r@ == proxy_path(group_name@),
{
    let mut path = String::from_str("/proxies/");
    let encoded = encode_segment(group_name);
    path.append(encoded.as_str());
    path
}

/// The path and query of a delay test, the name and the probe address
/// percent-encoded.
pub fn build_delay_path(name: &str, url: &Option<String>, timeout: Option<i32>) -> (r: String)
    ensures
        r@ == delay_path(
            name@,
            match url {
                Some(url) => Some(url@),
                None => None,
            },
            timeout,
        ),
{
    let mut path = String::from_str("/proxies/");
    let encoded_name = encode_segment(name);
    path.append(encoded_name.as_str());
    path.append("/delay?url=");
    let encoded_url = match url {
        Some(url) => encode_segment(url.as_str()),
        None => encode_segment(DEFAULT_DELAY_URL),
    };
    path.append(encoded_url.as_str());
    path.append("&timeout=");
    let limit: i32 = match timeout {
        Some(timeout) => timeout,
        None => DEFAULT_DELAY_TIMEOUT,
    };
    append_decimal(&mut path, limit as i64);
    path
}

/// The body of a request to select a proxy: the fields to encode.
pub open spec fn select_fields(proxy_name: Seq<char>) -> Seq<(Seq<char>, Seq<char>)> {
    seq![("name"@, proxy_name)]
}

/// The body of a request to set the mode: the fields to encode.
pub open spec fn mode_fields(mode: crate::model::Mode) -> Seq<(Seq<char>, Seq<char>)> {
    seq![("mode"@, mode.wire_name())]
}

/// Whether a request is the one that an operation sends through an endpoint
/// with a path and the fields of a body.
pub open spec fn is_request(
    request: Request,
    operation: Operation,
    endpoint: ControlEndpoint,
    path: Seq<char>,
    fields: Option<Seq<(Seq<char>, Seq<char>)>>,
) -> bool {
    &&& request.operation == operation
    &&& request.method == method_of(operation)
    &&& aims_at(request.target, endpoint, path)
    &&& request.path@ == path
    &&& match fields {
        Some(fields) => request.body is Some && request.body.unwrap()@ == json_object(fields),
        None => request.body is None,
    }
}

/// Puts a request together from its parts and from what the encoder made of
/// its body. A request is made where there is no body to encode or the body
/// was encoded; where the encoder failed, its text is returned as an
/// encoding error of the operation.
pub fn assemble(
    operation: Operation,
    target: Target,
    path: String,
    encoded: Option<Result<Vec<u8>, String>>,
) -> (r: Result<Request, ClashError>)
    ensures
        match encoded {
            None => r == Ok::<Request, ClashError>(
                Request { operation, method: method_of(operation), target, path, body: None },
            ),
            Some(Ok(bytes)) => r == Ok::<Request, ClashError>(
                Request { operation, method: method_of(operation), target, path, body: Some(bytes) },
            ),
            Some(Err(text)) => r == Err::<Request, ClashError>(
                ClashError::EncodeError(operation, text),
            ),
        },
{
    let method = method_for(operation);
    match encoded {
        None => Ok(Request { operation, method, target, path, body: None }),
        Some(Ok(bytes)) => Ok(Request { operation, method, target, path, body: Some(bytes) }),
        Some(Err(text)) => Err(ClashError::EncodeError(operation, text)),
    }
}

} // verus!
