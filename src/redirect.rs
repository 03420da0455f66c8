//! The plaintext listener's answer: a permanent redirect to the same path on
//! the secure scheme and port.
use vstd::prelude::*;
use crate::uri::{authority_valid, parse_authority};

verus! {

/// Status code of a permanent redirect that keeps the request method.
pub const PERMANENT_REDIRECT: u16 = 308;

/// Whether the authority text ends in the explicit plaintext port `:80`.
pub open spec fn has_plain_port(h: Seq<char>) -> bool {
    &&& h.len() >= 3
    &&& h[h.len() - 3] == ':'
    &&& h[h.len() - 2] == '8'
    &&& h[h.len() - 1] == '0'
}

/// The authority with its plaintext port `:80` rewritten to the secure `:443`;
/// an authority without that port is kept as it is.
pub open spec fn secure_host(h: Seq<char>) -> Seq<char> {
    if has_plain_port(h) {
        h.subrange(0, h.len() - 3) + seq![':', '4', '4', '3']
    } else {
        h
    }
}

/// The path and query of the target: the request's own, or `/` when it has none.
pub open spec fn target_path(pq: Option<Seq<char>>) -> Seq<char> {
    match pq {
        Some(p) => if p.len() > 0 { p } else { seq!['/'] },
        None => seq!['/'],
    }
}

/// `https://`
pub open spec fn https_prefix() -> Seq<char> {
    seq!['h', 't', 't', 'p', 's', ':', '/', '/']
}

/// Where a request for `pq` on host `h` is sent.
pub open spec fn redirect_location(h: Seq<char>, pq: Option<Seq<char>>) -> Seq<char> {
    https_prefix() + secure_host(h) + target_path(pq)
}

/// A permanent redirect: its status code and its `Location` target.
pub struct Redirect {
    pub status: u16,
    pub location: String,
}

/// Why no redirect could be built.
#[derive(Clone, Copy, Debug, PartialEq, Eq, Structural)]
pub enum RedirectError {
    /// The host, once its port is rewritten, is no valid URI authority.
    InvalidHost,
}

impl RedirectError {
    /// The status code of the response that reports this error.
    pub fn status_code(&self) -> (r: u16)
        ensures
            r == 500,
    {
        500
    }
}

/// The rewritten authority text.
fn secure_host_text(host: &str) -> (r: String)
    ensures
        r@ == secure_host(host@),
{
    let n = host.unicode_len();
    if n >= 3 && host.get_char(n - 3) == ':' && host.get_char(n - 2) == '8' && host.get_char(
        n - 1,
    ) == '0' {
        let mut r = String::from_str(host.substring_char(0, n - 3));
        r.append(":443");
        proof {
            reveal_strlit(":443");
            assert(r@ =~= secure_host(host@));
        }
        r
    } else {
        String::from_str(host)
    }
}

/// Builds the redirect for a plaintext request on `host` for `path_and_query`:
/// the https scheme, the host with port 80 rewritten to 443, and the same
/// path and query (`/` when the request has none). Fails exactly when the
/// rewritten host is no valid authority.
pub fn redirect_http(host: &str, path_and_query: Option<&str>) -> (r: Result<Redirect, RedirectError>)
    ensures
        r is Ok <==> authority_valid(secure_host(host@)),
        r matches Ok(d) ==> d.status == PERMANENT_REDIRECT && d.location@ == redirect_location(
            host@,
            match path_and_query {
                Some(p) => Some(p@),
                None => None,
            },
        ),
        r matches Err(e) ==> e == RedirectError::InvalidHost,
{
    let authority = secure_host_text(host);
    match parse_authority(authority.as_str()) {
        Err(_) => Err(RedirectError::InvalidHost),
        Ok(_) => {
            let mut location = String::from_str("https://");
            location.append(authority.as_str());
            let ghost pq = match path_and_query {
                Some(p) => Some(p@),
                None => None,
            };
            match path_and_query {
                Some(p) => {
                    if p.unicode_len() > 0 {
                        location.append(p);
                    } else {
                        location.append("/");
                    }
                },
                None => {
                    location.append("/");
                },
            }
            proof {
                reveal_strlit("https://");
                reveal_strlit("/");
                assert(location@ =~= redirect_location(host@, pq));
            }
            Ok(Redirect { status: PERMANENT_REDIRECT, location })
        },
    }
}

/// Every redirect target has the https scheme followed by the rewritten host
/// and then the request's own path and query; a host on the plaintext port 80
/// is sent to port 443, and a request without a path is sent to `/`.
pub proof fn lemma_redirect_shape(name: Seq<char>, q: Seq<char>)
    requires
        q.len() > 0,
    ensures
        ({
            let t = redirect_location(name, Some(q));
            &&& t.subrange(0, 8) == https_prefix()
            &&& t.subrange(8, t.len() - q.len()) == secure_host(name)
            &&& t.subrange(t.len() - q.len(), t.len() as int) == q
        }),
        redirect_location(name + seq![':', '8', '0'], Some(q)) == https_prefix() + name + seq![
            ':',
            '4',
            '4',
            '3',
        ] + q,
        redirect_location(name, None) == https_prefix() + secure_host(name) + seq!['/'],
{
    let t = redirect_location(name, Some(q));
    assert(t.subrange(0, 8) =~= https_prefix());
    assert(t.subrange(8, t.len() - q.len()) =~= secure_host(name));
    assert(t.subrange(t.len() - q.len(), t.len() as int) =~= q);
    let h = name + seq![':', '8', '0'];
    assert(has_plain_port(h));
    assert(h.subrange(0, h.len() - 3) =~= name);
}

} // verus!
