//! What the `url` crate reads out of a link.
use vstd::prelude::*;

verus! {

/// The parts of a parsed URL that the library reads.
#[derive(Debug)]
pub struct UrlParts {
    /// The host, when it is a domain (not an IP address).
    pub domain: Option<String>,
    /// The last segment of the path; `None` when the URL cannot be a base and
    /// so has no path segments.
    pub last_segment: Option<String>,
}

/// The view of the parts of a parsed URL: domain and last path segment.
pub open spec fn url_parts_view(p: UrlParts) -> (Option<Seq<char>>, Option<Seq<char>>) {
    (crate::text::opt_string_view(p.domain), crate::text::opt_string_view(p.last_segment))
}

/// The result of `url::Url::parse` on the text `input`, as the parts the
/// library reads: the domain of `Url::host` and the last item of
/// `Url::path_segments`; `None` when the text is no URL.
pub uninterp spec fn parsed_url(input: Seq<char>) -> Option<(Option<Seq<char>>, Option<Seq<char>>)>;

/// Parses `input` with `url::Url::parse`, then reads `host` (keeping it when
/// it is a domain) and the last of `path_segments`. The contract claims only
/// that the result is a function of the text; what URLs the crate accepts and
/// how it normalises them is not stated.
#[verifier::external_body]
pub fn parse_url(input: &str) -> (r: Option<UrlParts>)
    ensures
        match r {
            Some(p) => parsed_url(input@) == Some(url_parts_view(p)),
            None => parsed_url(input@) is None,
        },
{
    let url = match url::Url::parse(input) {
        Ok(url) => url,
        Err(_) => return None,
    };
    let domain = match url.host() {
        Some(url::Host::Domain(domain)) => Some(domain.to_string()),
        Some(url::Host::Ipv4(_)) => None,
        Some(url::Host::Ipv6(_)) => None,
        None => None,
    };
    let last_segment = match url.path_segments() {
        Some(mut segments) => segments.next_back().map(str::to_string),
        None => None,
    };
    Some(UrlParts { domain, last_segment })
}

} // verus!
