use vstd::prelude::*;
use vstd::string::StringSliceAdditionalSpecFns;
use crate::error::InternalError;
use crate::headers::{
    Header, eq_ignore_case, lemma_without_header_has_none, contains_ignore_case, contains_text_ignore_case, find_header, header_value,
    remove_header, str_equal, without_header,
};
use crate::transcode::{BodyEncoding, decode, decoded_text, encoding_of};

verus! {

/// Name of the header that tells what the body is.
pub const CONTENT_TYPE: &'static str = "content-type";

/// Name of the header that tells how the body is compressed.
pub const CONTENT_ENCODING: &'static str = "content-encoding";

/// Name of the hint asking the delivering platform to compress the response.
pub const COMPRESS_HINT: &'static str = "x-compress-hint";

/// Value of the compression hint.
pub const COMPRESS_HINT_ON: &'static str = "on";

/// Content type of the page sent when the action answers before the origin.
pub const SYNTHETIC_CONTENT_TYPE: &'static str = "text/html; charset=UTF-8";

pub const PAGE_START: &'static str = "\n<html>\n<head><title>";

pub const PAGE_MIDDLE: &'static str = "</title></head>\n<body bgcolor=\"white\">\n<center><h1>";

pub const PAGE_END: &'static str = "</h1></center>\n</body>\n</html>
<!-- a padding to disable MSIE and Chrome friendly error page -->
<!-- a padding to disable MSIE and Chrome friendly error page -->
<!-- a padding to disable MSIE and Chrome friendly error page -->
<!-- a padding to disable MSIE and Chrome friendly error page -->
<!-- a padding to disable MSIE and Chrome friendly error page -->
<!-- a padding to disable MSIE and Chrome friendly error page -->
<!-- a padding to disable MSIE and Chrome friendly error page -->
";

/// A response as the worker handles it: status, headers whose value is text,
/// and the body bytes.
pub struct ResponseParts {
    pub status: u16,
    pub headers: Vec<Header>,
    pub body: Vec<u8>,
}

/// The decimal digits of `n`, as ASCII bytes.
pub open spec fn decimal_bytes(n: nat) -> Seq<u8>
    decreases n,
{
    if n < 10 {
        seq![(48 + n) as u8]
    } else {
        decimal_bytes(n / 10).push((48 + n % 10) as u8)
    }
}

/// The small HTML page sent with a status decided before the origin: it
/// names the status twice, and is padded so that browsers show it rather than
/// a page of their own.
pub open spec fn synthetic_body(status: u16) -> Seq<u8> {
    PAGE_START.spec_bytes() + decimal_bytes(status as nat) + PAGE_MIDDLE.spec_bytes()
        + decimal_bytes(status as nat) + PAGE_END.spec_bytes()
}

/// Whether the origin is asked, given the action's status for "before any
/// response": only where the action sets none.
pub open spec fn dispatches(status_before: u16) -> bool {
    status_before == 0
}

/// The status that stands: the action's where it sets one, else the one given.
pub open spec fn merged_status(backend: u16, override_status: u16) -> u16 {
    if override_status != 0 {
        override_status
    } else {
        backend
    }
}

/// Whether the body is rewritten: never for `HEAD`, and only when the content
/// type says UTF-8, up to ASCII case.
pub open spec fn body_gate(method: Seq<char>, headers: Seq<Header>) -> bool {
    method != "HEAD"@ && match header_value(headers, CONTENT_TYPE@) {
        Some(ct) => contains_ignore_case(ct@, "utf-8"@),
        None => false,
    }
}

/// Whether the client accepts gzip.
pub open spec fn accepts_gzip(accept_encoding: Option<Seq<char>>) -> bool {
    match accept_encoding {
        Some(v) => contains_ignore_case(v, "gzip"@),
        None => false,
    }
}

pub open spec fn opt_view(s: Option<&str>) -> Option<Seq<char>> {
    match s {
        Some(v) => Some(v@),
        None => None,
    }
}

pub open spec fn opt_string_view(s: Option<String>) -> Option<Seq<char>> {
    match s {
        Some(v) => Some(v@),
        None => None,
    }
}

fn append_str(out: &mut Vec<u8>, s: &str)
    ensures
        final(out)@ == old(out)@ + s.spec_bytes(),
{
    let b = s.as_bytes();
    let mut i: usize = 0;
    while i < b.len()
        invariant
            b@ == s.spec_bytes(),
            i <= b@.len(),
            out@ == old(out)@ + b@.subrange(0, i as int),
        decreases b@.len() - i,
    {
        out.push(b[i]);
        i = i + 1;
        assert(out@ =~= old(out)@ + b@.subrange(0, i as int));
    }
    assert(b@.subrange(0, b@.len() as int) =~= b@);
}

fn append_decimal(out: &mut Vec<u8>, n: u16)
    ensures
        final(out)@ == old(out)@ + decimal_bytes(n as nat),
    decreases n,
{
    if n >= 10 {
        append_decimal(out, n / 10);
    }
    out.push(48u8 + (n % 10) as u8);
    assert(out@ =~= old(out)@ + decimal_bytes(n as nat));
}

/// The response sent with a status that the action decided before the origin.
pub fn synthetic_response(status: u16) -> (r: ResponseParts)
    ensures
        r.status == status,
        r.body@ == synthetic_body(status),
        r.headers@.len() == 1,
        r.headers@[0].name@ == CONTENT_TYPE@,
        r.headers@[0].value@ == SYNTHETIC_CONTENT_TYPE@,
{
    let mut body: Vec<u8> = Vec::new();
    append_str(&mut body, PAGE_START);
    append_decimal(&mut body, status);
    append_str(&mut body, PAGE_MIDDLE);
    append_decimal(&mut body, status);
    append_str(&mut body, PAGE_END);
    assert(body@ =~= synthetic_body(status));
    let mut headers: Vec<Header> = Vec::new();
    headers.push(
        Header {
            name: String::from_str(CONTENT_TYPE),
            value: String::from_str(SYNTHETIC_CONTENT_TYPE),
        },
    );
    ResponseParts { status, headers, body }
}

/// What to do first with a request.
pub enum Start {
    /// Answer at once with this response; the origin is not asked.
    Respond(ResponseParts),
    /// Send the request to the origin.
    Dispatch,
}

/// Decides, from the action's status for "before any response" (0 where it
/// sets none), whether the origin is asked.
pub fn start(status_before: u16) -> (r: Start)
    ensures
        r is Dispatch <==> dispatches(status_before),
        r matches Start::Respond(resp) ==> {
            &&& resp.status == status_before
            &&& resp.body@ == synthetic_body(status_before)
            &&& resp.headers@.len() == 1
            &&& resp.headers@[0].name@ == CONTENT_TYPE@
            &&& resp.headers@[0].value@ == SYNTHETIC_CONTENT_TYPE@
        },
{
    if status_before == 0 {
        Start::Dispatch
    } else {
        Start::Respond(synthetic_response(status_before))
    }
}

/// The status that stands: the action's where it sets one, else the one given.
pub fn merge_status(backend: u16, override_status: u16) -> (r: u16)
    ensures
        r == merged_status(backend, override_status),
{
    if override_status != 0 {
        override_status
    } else {
        backend
    }
}

/// A response whose status the action has had its say on, with the status it
/// had before: the one the header filter and the log decision are keyed by.
pub struct Fetched {
    pub response: ResponseParts,
    pub backend_status: u16,
}

/// Applies the action's status for the response's own status (0 where it
/// sets none). The status it had is kept as the backend status.
pub fn after_response(response: ResponseParts, status_after: u16) -> (r: Fetched)
    ensures
        r.backend_status == response.status,
        r.response.status == merged_status(response.status, status_after),
        status_after != 0 ==> r.response.status == status_after,
        r.response.headers == response.headers,
        r.response.body == response.body,
{
    let backend_status = response.status;
    let status = merge_status(backend_status, status_after);
    Fetched {
        response: ResponseParts { status, headers: response.headers, body: response.body },
        backend_status,
    }
}

/// Whether the body of a response to `method` with these headers is
/// rewritten.
pub fn should_filter_body(method: &str, headers: &Vec<Header>) -> (r: bool)
    ensures
        r == body_gate(method@, headers@),
{
    if str_equal(method, "HEAD") {
        return false;
    }
    match find_header(headers, CONTENT_TYPE) {
        Some(ct) => contains_text_ignore_case(ct.as_str(), "utf-8"),
        None => false,
    }
}

/// A response whose body is ready to be handed to the action's body filter.
pub struct PendingBody {
    /// The response as it goes out if the action has no body filter.
    pub response: ResponseParts,
    /// The body as text, with the origin's content encoding undone.
    pub decoded: Vec<u8>,
    /// The headers to key the body filter by: those of the response but the
    /// content encoding, which no longer applies to the decoded body.
    pub filter_headers: Vec<Header>,
}

/// What comes after the header filter.
pub enum BodyStep {
    /// The body is not rewritten: this response goes out.
    Done(ResponseParts),
    /// The body could not be decoded: this response, with the body the origin
    /// sent, goes out, and the error is reported.
    DecodeFailed(ResponseParts, InternalError),
    /// The body is handed to the action's body filter.
    Filter(PendingBody),
}

/// Puts the filtered headers on the response, then decides whether its body
/// is rewritten and, if so, decodes it per the origin's content encoding.
pub fn apply_headers(fetched: Fetched, filtered: Vec<Header>, method: &str) -> (r: BodyStep)
    ensures
        ({
            let origin = fetched.response;
            let enc = encoding_of(opt_string_view(header_value(origin.headers@, CONTENT_ENCODING@)));
            let resp = ResponseParts { status: origin.status, headers: filtered, body: origin.body };
            &&& !body_gate(method@, filtered@) ==> r == BodyStep::Done(resp)
            &&& body_gate(method@, filtered@) && enc is Unsupported ==> r == BodyStep::DecodeFailed(
                resp,
                InternalError::EncodingNotSupported,
            )
            &&& body_gate(method@, filtered@) && !(enc is Unsupported) && decoded_text(
                enc,
                origin.body@,
            ) is None ==> (r matches BodyStep::DecodeFailed(p, InternalError::DecodingFailed(_))
                && p == resp)
            &&& body_gate(method@, filtered@) && !(enc is Unsupported) && decoded_text(
                enc,
                origin.body@,
            ) is Some ==> (r matches BodyStep::Filter(pb) && pb.response == resp && Some(
                pb.decoded@,
            ) == decoded_text(enc, origin.body@) && pb.filter_headers@ == without_header(
                filtered@,
                CONTENT_ENCODING@,
            ))
        }),
{
    let origin = fetched.response;
    if !should_filter_body(method, &filtered) {
        return BodyStep::Done(
            ResponseParts { status: origin.status, headers: filtered, body: origin.body },
        );
    }
    let content_encoding = find_header(&origin.headers, CONTENT_ENCODING);
    let decoded = match &content_encoding {
        Some(v) => decode(Some(v.as_str()), origin.body.as_slice()),
        None => decode(None, origin.body.as_slice()),
    };
    match decoded {
        Err(e) => BodyStep::DecodeFailed(
            ResponseParts { status: origin.status, headers: filtered, body: origin.body },
            e,
        ),
        Ok(text) => {
            let mut filter_headers: Vec<Header> = Vec::new();
            let mut i: usize = 0;
            while i < filtered.len()
                invariant
                    i <= filtered@.len(),
                    filter_headers@ == filtered@.subrange(0, i as int),
                decreases filtered@.len() - i,
            {
                filter_headers.push(
                    Header { name: filtered[i].name.clone(), value: filtered[i].value.clone() },
                );
                i = i + 1;
                assert(filter_headers@ =~= filtered@.subrange(0, i as int));
            }
            assert(filter_headers@ =~= filtered@);
            let filter_headers = remove_header(filter_headers, CONTENT_ENCODING);
            BodyStep::Filter(
                PendingBody {
                    response: ResponseParts {
                        status: origin.status,
                        headers: filtered,
                        body: origin.body,
                    },
                    decoded: text,
                    filter_headers,
                },
            )
        },
    }
}

/// Sets the rewritten body: what the filter gave for the decoded body followed
/// by what it gave when ended. The body now goes out uncompressed, so the
/// content encoding is dropped; where the client accepts gzip, the platform is
/// asked to compress it. Without a body filter the response is unchanged.
pub fn finish_body(
    pending: PendingBody,
    filtered: Option<(Vec<u8>, Vec<u8>)>,
    accept_encoding: Option<&str>,
) -> (r: ResponseParts)
    ensures
        filtered is None ==> r == pending.response,
        filtered matches Some((out, tail)) ==> {
            let kept = without_header(pending.response.headers@, CONTENT_ENCODING@);
            &&& r.status == pending.response.status
            &&& r.body@ == out@ + tail@
            &&& accepts_gzip(opt_view(accept_encoding)) ==> {
                &&& r.headers@.len() == kept.len() + 1
                &&& r.headers@.drop_last() == kept
                &&& r.headers@.last().name@ == COMPRESS_HINT@
                &&& r.headers@.last().value@ == COMPRESS_HINT_ON@
            }
            &&& !accepts_gzip(opt_view(accept_encoding)) ==> r.headers@ == kept
        },
{
    match filtered {
        None => pending.response,
        Some((out, tail)) => {
            let mut body = out;
            let mut tail = tail;
            body.append(&mut tail);
            let mut headers = remove_header(pending.response.headers, CONTENT_ENCODING);
            let gzip = match accept_encoding {
                Some(v) => contains_text_ignore_case(v, "gzip"),
                None => false,
            };
            if gzip {
                let ghost kept = headers@;
                headers.push(
                    Header {
                        name: String::from_str(COMPRESS_HINT),
                        value: String::from_str(COMPRESS_HINT_ON),
                    },
                );
                assert(headers@.drop_last() =~= kept);
            }
            ResponseParts { status: pending.response.status, headers, body }
        },
    }
}

/// A rewritten body goes out with no content encoding, whether or not the
/// compression hint is added to the headers.
pub proof fn lemma_rewritten_not_encoded(headers: Seq<Header>, hint: Header)
    requires
        hint.name@ == COMPRESS_HINT@,
    ensures
        forall|i: int|
            0 <= i < without_header(headers, CONTENT_ENCODING@).len() ==> !eq_ignore_case(
                #[trigger] without_header(headers, CONTENT_ENCODING@)[i].name@,
                CONTENT_ENCODING@,
            ),
        forall|i: int|
            0 <= i < without_header(headers, CONTENT_ENCODING@).push(hint).len()
                ==> !eq_ignore_case(
                #[trigger] without_header(headers, CONTENT_ENCODING@).push(hint)[i].name@,
                CONTENT_ENCODING@,
            ),
{
    lemma_without_header_has_none(headers, CONTENT_ENCODING@);
    reveal_strlit("x-compress-hint");
    reveal_strlit("content-encoding");
    let kept = without_header(headers, CONTENT_ENCODING@);
    assert forall|i: int| 0 <= i < kept.push(hint).len() implies !eq_ignore_case(
        #[trigger] kept.push(hint)[i].name@,
        CONTENT_ENCODING@,
    ) by {
        if i < kept.len() {
            assert(kept.push(hint)[i] == kept[i]);
        }
    }
}

/// When the action answers before the origin and keeps to that status
/// afterwards, the origin is not asked and the status it gave stands.
pub proof fn lemma_short_circuit_status(status_before: u16, status_after: u16)
    requires
        status_before != 0,
        status_after == 0 || status_after == status_before,
    ensures
        !dispatches(status_before),
        merged_status(status_before, status_after) == status_before,
{
}

} // verus!
