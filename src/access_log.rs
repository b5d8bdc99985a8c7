use vstd::prelude::*;
use crate::headers::Header;
use crate::proxy::ResponseParts;
use crate::request::CanonicalRequest;

verus! {

/// Version of this worker, as it reports itself.
pub const AGENT_VERSION: &'static str = "dev";

/// Where the decision service listens.
pub const API_ENDPOINT: &'static str = "https://agent.redirection.io";

/// Name under which this worker signs its access log records.
pub const PROXY_NAME: &'static str = "redirectionio-fastly:dev";

/// What the access log record of one request says of the response and of the
/// client; the request itself and the action's match data are added where the
/// record is sent.
pub struct LogRecord {
    pub status: u16,
    pub response_headers: Vec<Header>,
    pub proxy: String,
    pub timestamp: u64,
    pub client_ip: String,
}

/// The client address, or the empty text where it is unknown.
pub open spec fn client_ip_of(remote_addr: Option<String>) -> Seq<char> {
    match remote_addr {
        Some(a) => a@,
        None => ""@,
    }
}

/// A copy of a header list.
pub fn copy_headers(headers: &Vec<Header>) -> (r: Vec<Header>)
    ensures
        r@ == headers@,
{
    let mut out: Vec<Header> = Vec::new();
    let mut i: usize = 0;
    while i < headers.len()
        invariant
            i <= headers@.len(),
            out@ == headers@.subrange(0, i as int),
        decreases headers@.len() - i,
    {
        out.push(Header { name: headers[i].name.clone(), value: headers[i].value.clone() });
        i = i + 1;
        assert(out@ =~= headers@.subrange(0, i as int));
    }
    assert(out@ =~= headers@);
    out
}

/// Builds the access log record of a request, only where the action asked
/// for one: otherwise nothing is built. The record describes the response as
/// it goes out, with every override and filter applied.
pub fn log_record(
    should_log: bool,
    request: &CanonicalRequest,
    response: &ResponseParts,
    timestamp: u64,
) -> (r: Option<LogRecord>)
    ensures
        r is None <==> !should_log,
        r matches Some(rec) ==> {
            &&& rec.status == response.status
            &&& rec.response_headers@ == response.headers@
            &&& rec.proxy@ == PROXY_NAME@
            &&& rec.timestamp == timestamp
            &&& rec.client_ip@ == client_ip_of(request.remote_addr)
        },
{
    if !should_log {
        return None;
    }
    let client_ip = match &request.remote_addr {
        Some(a) => a.clone(),
        None => {
            proof {
                reveal_strlit("");
            }
            String::new()
        },
    };
    assert(client_ip@ =~= client_ip_of(request.remote_addr));
    Some(
        LogRecord {
            status: response.status,
            response_headers: copy_headers(&response.headers),
            proxy: String::from_str(PROXY_NAME),
            timestamp,
            client_ip,
        },
    )
}

/// A call to the decision service: where it goes and the headers it carries.
pub struct ApiCall {
    pub url: String,
    pub headers: Vec<Header>,
}

/// The call to `{API_ENDPOINT}/{token}/{path}`, signed with the worker's user
/// agent and the instance name.
pub fn api_call(token: &str, instance_name: &str, path: &str) -> (r: ApiCall)
    ensures
        r.url@ == API_ENDPOINT@ + "/"@ + token@ + "/"@ + path@,
        r.headers@.len() == 2,
        r.headers@[0].name@ == "User-Agent"@,
        r.headers@[0].value@ == "fastly-worker/"@ + AGENT_VERSION@,
        r.headers@[1].name@ == "x-redirectionio-instance-name"@,
        r.headers@[1].value@ == instance_name@,
{
    let mut url = String::from_str(API_ENDPOINT);
    url.append("/");
    url.append(token);
    url.append("/");
    url.append(path);
    let mut agent = String::from_str("fastly-worker/");
    agent.append(AGENT_VERSION);
    let mut headers: Vec<Header> = Vec::new();
    headers.push(Header { name: String::from_str("User-Agent"), value: agent });
    headers.push(
        Header {
            name: String::from_str("x-redirectionio-instance-name"),
            value: String::from_str(instance_name),
        },
    );
    ApiCall { url, headers }
}

/// Whether the decision service's answer can be read as an action: only a
/// `200` can.
pub fn action_answer_usable(status: u16) -> (r: bool)
    ensures
        r == (status == 200),
{
    status == 200
}

} // verus!
