use vstd::prelude::*;
use crate::headers::Header;

verus! {

/// The normalised view of an inbound request that the action is resolved
/// for and that the access log describes.
pub struct CanonicalRequest {
    pub url: String,
    pub method: String,
    pub headers: Vec<Header>,
    pub remote_addr: Option<String>,
}

/// Whether a header name is a pseudo header, such as `:authority`.
pub open spec fn is_pseudo(name: Seq<char>) -> bool {
    name.len() > 0 && name[0] == ':'
}

/// The headers of a raw request list that are kept: pseudo headers and
/// values that are not text are left out; order and duplicates are kept.
pub open spec fn request_headers(raw: Seq<(String, Option<String>)>) -> Seq<Header>
    decreases raw.len(),
{
    if raw.len() == 0 {
        seq![]
    } else {
        let rest = request_headers(raw.drop_last());
        match raw.last().1 {
            Some(v) => if is_pseudo(raw.last().0@) {
                rest
            } else {
                rest.push(Header { name: raw.last().0, value: v })
            },
            None => rest,
        }
    }
}

impl CanonicalRequest {
    /// Builds the canonical request from what the platform gives: the URL,
    /// the method, the client address, and the headers with their value where
    /// it is text.
    pub fn new(
        url: String,
        method: String,
        remote_addr: Option<String>,
        raw_headers: &Vec<(String, Option<String>)>,
    ) -> (r: CanonicalRequest)
        ensures
            r.url == url,
            r.method == method,
            r.remote_addr == remote_addr,
            r.headers@ == request_headers(raw_headers@),
    {
        let mut headers: Vec<Header> = Vec::new();
        let mut i: usize = 0;
        while i < raw_headers.len()
            invariant
                i <= raw_headers@.len(),
                headers@ == request_headers(raw_headers@.subrange(0, i as int)),
            decreases raw_headers@.len() - i,
        {
            assert(raw_headers@.subrange(0, i + 1).drop_last() =~= raw_headers@.subrange(
                0,
                i as int,
            ));
            let name = &raw_headers[i].0;
            let pseudo = name.as_str().unicode_len() > 0 && name.as_str().get_char(0) == ':';
            match &raw_headers[i].1 {
                Some(v) => {
                    if !pseudo {
                        headers.push(Header { name: name.clone(), value: v.clone() });
                    }
                },
                None => {},
            }
            i = i + 1;
        }
        assert(raw_headers@.subrange(0, raw_headers@.len() as int) =~= raw_headers@);
        CanonicalRequest { url, method, headers, remote_addr }
    }
}

} // verus!
