//! The request-forwarding path: selecting the active upstream, resolving the
//! outbound target URI against its base URL, and relaying headers with the
//! hop-by-hop set stripped, on both the request and the response side.

use vstd::prelude::*;
use vstd::seq_lib::group_seq_properties;
use vstd::string::StringSliceAdditionalSpecFns;
use crate::UpstreamTarget;
use crate::text::{eq_ignore_case, eq_ignore_ascii_case};

verus! {

/// One header as relayed by the proxy: a name and an opaque value.
#[derive(Clone, Debug, PartialEq, Eq)]
pub struct HeaderField {
    pub name: Vec<u8>,
    pub value: Vec<u8>,
}

/// Whether a header name, compared without regard to ASCII case, is one of
/// the hop-by-hop headers that a proxy must not relay.
pub open spec fn is_hop_by_hop(name: Seq<u8>) -> bool {
    ||| eq_ignore_case(name, "connection".spec_bytes())
    ||| eq_ignore_case(name, "proxy-authenticate".spec_bytes())
    ||| eq_ignore_case(name, "proxy-authorization".spec_bytes())
    ||| eq_ignore_case(name, "te".spec_bytes())
    ||| eq_ignore_case(name, "trailer".spec_bytes())
    ||| eq_ignore_case(name, "transfer-encoding".spec_bytes())
    ||| eq_ignore_case(name, "upgrade".spec_bytes())
}

/// The headers that survive the hop-by-hop filter, in their original order.
pub open spec fn forwardable_headers(headers: Seq<HeaderField>) -> Seq<HeaderField> {
    headers.filter(|h: HeaderField| !is_hop_by_hop(h.name@))
}

/// Decides whether one header is hop-by-hop, regardless of its case.
pub fn is_hop_by_hop_header(name: &[u8]) -> (r: bool)
    ensures
        r == is_hop_by_hop(name@),
{
    eq_ignore_ascii_case(name, "connection".as_bytes()) || eq_ignore_ascii_case(
        name,
        "proxy-authenticate".as_bytes(),
    ) || eq_ignore_ascii_case(name, "proxy-authorization".as_bytes()) || eq_ignore_ascii_case(
        name,
        "te".as_bytes(),
    ) || eq_ignore_ascii_case(name, "trailer".as_bytes()) || eq_ignore_ascii_case(
        name,
        "transfer-encoding".as_bytes(),
    ) || eq_ignore_ascii_case(name, "upgrade".as_bytes())
}

/// Copies a header list, leaving every hop-by-hop header out.
pub fn filter_hop_by_hop(headers: Vec<HeaderField>) -> (r: Vec<HeaderField>)
    ensures
        r@ == forwardable_headers(headers@),
        forall|i: int| 0 <= i < r@.len() ==> !is_hop_by_hop(#[trigger] r@[i].name@),
{
    broadcast use group_seq_properties;

    let ghost orig: Seq<HeaderField> = headers@;
    let mut rest = headers;
    let mut r: Vec<HeaderField> = Vec::new();
    let ghost mut k: int = 0;
    while rest.len() > 0
        invariant
            0 <= k <= orig.len(),
            rest@ == orig.skip(k),
            r@ == forwardable_headers(orig.take(k)),
        decreases rest@.len(),
    {
        let h = rest.remove(0);
        proof {
            assert(h == orig[k]);
            assert(orig.take(k + 1).drop_last() =~= orig.take(k));
            reveal(Seq::filter);
        }
        if !is_hop_by_hop_header(h.name.as_slice()) {
            r.push(h);
        }
        proof {
            assert(r@ =~= forwardable_headers(orig.take(k + 1)));
            assert(rest@ =~= orig.skip(k + 1));
        }
        proof {
            k = k + 1;
        }
    }
    proof {
        assert(orig.take(k) =~= orig);
        lemma_no_hop_by_hop_forwarded(orig);
    }
    r
}

/// Hop-by-hop headers never appear among the forwardable headers, whatever
/// the inbound list held.
pub proof fn lemma_no_hop_by_hop_forwarded(headers: Seq<HeaderField>)
    ensures
        forall|i: int|
            0 <= i < forwardable_headers(headers).len() ==> !is_hop_by_hop(
                #[trigger] forwardable_headers(headers)[i].name@,
            ),
{
    assert forall|i: int|
        0 <= i < forwardable_headers(headers).len() implies !is_hop_by_hop(
        #[trigger] forwardable_headers(headers)[i].name@,
    ) by {
        headers.lemma_filter_pred(|h: HeaderField| !is_hop_by_hop(h.name@), i);
    }
}

/// How a failed forward is surfaced to the client.
#[derive(Clone, Copy, Debug, PartialEq, Eq)]
pub enum ProxyFailure {
    /// The target URI could not be built from the configured base URL.
    BadRequest,
    /// The selected upstream could not be reached, or timed out.
    BadGateway,
    /// The upstream's response could not be relayed.
    Internal,
}

impl ProxyFailure {
    /// The HTTP status code sent to the client for this failure.
    pub fn status_code(&self) -> (r: u16)
        ensures
            *self is BadRequest ==> r == 400,
            *self is BadGateway ==> r == 502,
            *self is Internal ==> r == 500,
    {
        match self {
            ProxyFailure::BadRequest => 400,
            ProxyFailure::BadGateway => 502,
            ProxyFailure::Internal => 500,
        }
    }
}

/// Whether `url::Url::parse` accepts a string: a function of the string
/// alone.
pub uninterp spec fn url_parse_ok(s: Seq<char>) -> bool;

/// Whether resolving `reference` against the URL parsed from `base`
/// succeeds: a function of the two strings alone.
pub uninterp spec fn url_join_ok(base: Seq<char>, reference: Seq<char>) -> bool;

/// The serialization of the URL obtained by parsing `base` and resolving
/// `reference` against it: a function of the two strings alone.
pub uninterp spec fn url_resolved(base: Seq<char>, reference: Seq<char>) -> Seq<char>;

/// Relies on url::Url::parse, url::Url::join and url::Url::as_str: parsing
/// a base string, resolving a reference against it, and serializing the
/// resolved URL each depend on their string inputs alone (no environment,
/// no base overrides), so the outcome and the resolved string can be named.
#[verifier::external_body]
fn resolve_reference(base: &str, reference: &str) -> (r: Option<String>)
    ensures
        r is Some <==> (url_parse_ok(base@) && url_join_ok(base@, reference@)),
        r is Some ==> r->0@ == url_resolved(base@, reference@),
{
    match url::Url::parse(base) {
        Ok(b) => match b.join(reference) {
            Ok(u) => Some(u.as_str().to_owned()),
            Err(_) => None,
        },
        Err(_) => None,
    }
}

/// The reference that is resolved against the base: the original path and
/// query, or the root path when the original has none, as an HTTP request
/// line always carries at least `/`.
pub open spec fn effective_reference(path_and_query: Seq<char>) -> Seq<char> {
    if path_and_query.len() == 0 {
        "/"@
    } else {
        path_and_query
    }
}

/// Resolves the original path and query against the selected base URL:
/// succeeds exactly when the base parses and the resolution is valid, and
/// then returns exactly the resolved URL.
pub fn build_target_uri(base: &str, path_and_query: &str) -> (r: Result<String, ProxyFailure>)
    ensures
        r is Ok <==> url_parse_ok(base@) && url_join_ok(
            base@,
            effective_reference(path_and_query@),
        ),
        r matches Ok(t) ==> t@ == url_resolved(base@, effective_reference(path_and_query@)),
        r matches Err(e) ==> e is BadRequest,
{
    let reference: &str = if path_and_query.is_empty() {
        "/"
    } else {
        path_and_query
    };
    match resolve_reference(base, reference) {
        Some(t) => Ok(t),
        None => Err(ProxyFailure::BadRequest),
    }
}

/// The outbound request handed back to the transport: where to send it, the
/// headers that survive the proxy boundary, and the buffered body.
#[derive(Clone, Debug)]
pub struct ForwardPlan {
    pub target_uri: String,
    pub headers: Vec<HeaderField>,
    pub body: Vec<u8>,
}

/// The base URL that a request is routed to: the primary's while it is
/// considered healthy, the backup's otherwise.
pub open spec fn selected_base(targets: UpstreamTarget, primary_healthy: bool) -> Seq<char> {
    if primary_healthy {
        targets.primary@
    } else {
        targets.backup@
    }
}

/// Plans the forward of one inbound request: reads the routing flag once,
/// resolves the target against the active upstream's base URL, and strips
/// hop-by-hop headers. Planning succeeds exactly when the selected base
/// resolves; the target is then exactly the original path and query resolved
/// against it, and the body is relayed unchanged. Transport failures are the
/// caller's to surface as a gateway error.
pub fn plan_forward(
    targets: &UpstreamTarget,
    primary_healthy: bool,
    path_and_query: &str,
    headers: Vec<HeaderField>,
    body: Vec<u8>,
) -> (r: Result<ForwardPlan, ProxyFailure>)
    ensures
        r is Ok <==> url_parse_ok(selected_base(*targets, primary_healthy)) && url_join_ok(
            selected_base(*targets, primary_healthy),
            effective_reference(path_and_query@),
        ),
        r matches Ok(p) ==> {
            &&& p.target_uri@ == url_resolved(
                selected_base(*targets, primary_healthy),
                effective_reference(path_and_query@),
            )
            &&& p.headers@ == forwardable_headers(headers@)
            &&& p.body@ == body@
        },
        r matches Err(e) ==> e is BadRequest,
{
    let base = targets.active(primary_healthy);
    let target_uri = match build_target_uri(base, path_and_query) {
        Ok(t) => t,
        Err(e) => {
            return Err(e);
        },
    };
    Ok(ForwardPlan { target_uri, headers: filter_hop_by_hop(headers), body })
}

/// The response relayed back to the client: the upstream's status code with
/// the headers that survive the proxy boundary.
#[derive(Clone, Debug)]
pub struct RelayPlan {
    pub status: u16,
    pub headers: Vec<HeaderField>,
}

/// Plans the relay of the upstream's response: the original status code is
/// kept and hop-by-hop headers are stripped.
pub fn plan_response(status: u16, headers: Vec<HeaderField>) -> (r: RelayPlan)
    ensures
        r.status == status,
        r.headers@ == forwardable_headers(headers@),
{
    RelayPlan { status, headers: filter_hop_by_hop(headers) }
}

/// Whether a buffered request body is within the configured limit. A body
/// exactly at the limit is accepted; one byte over is rejected before any
/// forward is planned.
pub fn body_within_limit(body_len: usize, max_body: usize) -> (r: bool)
    ensures
        r == (body_len <= max_body),
{
    body_len <= max_body
}

} // verus!
