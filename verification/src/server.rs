use vstd::prelude::*;

use crate::power::PowerValue;
use crate::render::{exposition_text, render_exposition};

verus! {

/// The request methods the exposition server distinguishes. Only `GET`
/// is ever served; everything else falls under the not-found answer, so
/// the unlisted methods arrive as `Other`.
#[derive(Clone, Copy, Debug, PartialEq, Eq, Structural)]
pub enum HttpMethod {
    Get,
    Post,
    Other,
}

/// One response of the exposition server.
#[derive(Clone, Debug)]
pub struct HttpResponse {
    pub status: u16,
    pub content_type: Option<String>,
    pub body: String,
}

/// Whether a request asks for the metrics document: method `GET`, path
/// exactly `/metrics`.
pub open spec fn is_metrics_request(method: HttpMethod, path: Seq<char>) -> bool {
    method == HttpMethod::Get && path == "/metrics"@
}

/// Whether two string slices hold the same characters.
pub fn str_eq(a: &str, b: &str) -> (r: bool)
    ensures
        r == (a@ == b@),
{
    let n = a.unicode_len();
    if n != b.unicode_len() {
        return false;
    }
    let mut i: usize = 0;
    while i < n
        invariant
            0 <= i <= n,
            n == a@.len(),
            n == b@.len(),
            forall|j: int| 0 <= j < i ==> a@[j] == b@[j],
        decreases n - i,
    {
        if a.get_char(i) != b.get_char(i) {
            return false;
        }
        i += 1;
    }
    proof {
        assert(a@ =~= b@);
    }
    true
}

/// Answers one scrape request from a snapshot of the registry.
///
/// `GET /metrics` is served with status 200, the exposition format's MIME
/// type, and the rendered snapshot as body; any other method or path gets
/// status 404 with no content type and an empty body.
pub fn handle_request(method: HttpMethod, path: &str, snapshot: Option<PowerValue>) -> (r:
    HttpResponse)
    ensures
        r.status == 200 <==> is_metrics_request(method, path@),
        is_metrics_request(method, path@) ==> {
            &&& r.content_type matches Some(ct) && ct@ == "text/plain; version=0.0.4"@
            &&& r.body@ == exposition_text(snapshot)
        },
        !is_metrics_request(method, path@) ==> {
            &&& r.status == 404
            &&& r.content_type is None
            &&& r.body@ == Seq::<char>::empty()
        },
{
    let is_get = match method {
        HttpMethod::Get => true,
        _ => false,
    };
    if is_get && str_eq(path, "/metrics") {
        HttpResponse {
            status: 200,
            content_type: Some(String::from_str("text/plain; version=0.0.4")),
            body: render_exposition(snapshot),
        }
    } else {
        HttpResponse { status: 404, content_type: None, body: String::new() }
    }
}

} // verus!
