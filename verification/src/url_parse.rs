use vstd::prelude::*;
use vstd::string::*;
use crate::CoapError;

verus! {

/// The decomposition the URL library gives a string: host, explicit port if
/// any, and path — or nothing, when the string is not a valid URL or has no
/// host component.  The value depends on the string alone.
pub uninterp spec fn url_parts(s: Seq<char>) -> Option<(Seq<char>, Option<u16>, Seq<char>)>;

/// Relies on `url::Url::parse` and the `host_str`, `port` and `path`
/// accessors of the parsed value: `parse` rejects malformed URLs (among them
/// any port outside the 16-bit range), and the accessors decompose the rest.
#[verifier::external_body]
fn split_url(s: &str) -> (r: Option<(String, Option<u16>, String)>)
    ensures
        r is Some <==> url_parts(s@) is Some,
        r matches Some(t) ==> url_parts(s@) matches Some(u) && t.0@ == u.0 && t.1 == u.1
            && t.2@ == u.2,
{
    match url::Url::parse(s) {
        Ok(u) => match u.host_str() {
            Some(h) => Some((h.to_string(), u.port(), u.path().to_string())),
            None => None,
        },
        Err(_) => None,
    }
}

/// A bracketed IPv6 literal with its brackets taken off; anything else
/// unchanged.
pub open spec fn stripped(h: Seq<char>) -> Seq<char> {
    if h.len() >= 2 && h[0] == '[' && h[h.len() - 1] == ']' {
        h.subrange(1, h.len() - 1)
    } else {
        h
    }
}

/// Strips the brackets off a bracketed IPv6 literal.
fn strip_brackets(h: &str) -> (r: String)
    ensures
        r@ == stripped(h@),
{
    let n = h.unicode_len();
    if n >= 2 && h.get_char(0) == '[' && h.get_char(n - 1) == ']' {
        h.substring_char(1, n - 1).to_owned()
    } else {
        h.to_owned()
    }
}

/// The port an URL names, or the protocol's default 5683 when it names none.
pub open spec fn port_or_default(p: Option<u16>) -> u16 {
    match p {
        Some(x) => x,
        None => 5683,
    }
}

/// What parsing an URL yields: host with IPv6 brackets stripped, port
/// defaulted to 5683, and path — or nothing when the URL library rejects the
/// string or the host component is empty.
pub open spec fn parsed_coap_url(s: Seq<char>) -> Option<(Seq<char>, u16, Seq<char>)> {
    match url_parts(s) {
        Some((h, p, path)) => if h.len() == 0 {
            None
        } else {
            Some((stripped(h), port_or_default(p), path))
        },
        None => None,
    }
}

/// Decomposes a `coap://host[:port]/path` URL into host, port and path.
/// Brackets around an IPv6 host literal are stripped; an omitted port
/// defaults to 5683.  Fails with `invalid-input` exactly when the string is
/// not a valid URL (among them any port outside the 16-bit range) or the
/// host component is empty.
pub fn parse_coap_url(url: &str) -> (r: Result<(String, u16, String), CoapError>)
    ensures
        r is Ok <==> parsed_coap_url(url@) is Some,
        r matches Ok(t) ==> parsed_coap_url(url@) == Some((t.0@, t.1, t.2@)),
        r matches Err(e) ==> e == CoapError::InvalidInput,
{
    match split_url(url) {
        None => Err(CoapError::InvalidInput),
        Some((host, port, path)) => {
            if host.as_str().unicode_len() == 0 {
                Err(CoapError::InvalidInput)
            } else {
                let h = strip_brackets(host.as_str());
                let p: u16 = match port {
                    Some(x) => x,
                    None => 5683,
                };
                Ok((h, p, path))
            }
        },
    }
}

} // verus!
