//! The metadata resolver's redirect discipline: candidates are fetched with
//! transport-level redirects disabled, and each `Location` header is
//! inspected here. A redirect that carries a magnet URI (directly or
//! percent-encoded inside the path) restarts resolution with that magnet; a
//! relative target is resolved against the current URL; more than ten hops,
//! or any response that is neither success nor redirection, fails the
//! candidate.
use vstd::prelude::*;

verus! {

use crate::media::StreamError;
use crate::text::{
    append_chars, chars_vec, contains_chars, contains_seq, find_chars, matches_at, starts_with,
    starts_with_chars, string_from_chars, u64_to_chars,
};

/// The most redirect hops one candidate may take.
pub const MAX_REDIRECTS: u32 = 10;

/// What `urlencoding::decode` yields for this input (the empty sequence when
/// the input decodes to invalid UTF-8).
pub uninterp spec fn url_decoded(s: Seq<char>) -> Seq<char>;

/// Relies on `urlencoding::decode`: percent-decodes the input, and returns it
/// unchanged when it holds no `%` (shown by its source, which only rewrites
/// `%`-escapes). An input whose escapes decode to invalid UTF-8 becomes the
/// empty string here.
#[verifier::external_body]
fn percent_decode(s: &str) -> (r: String)
    ensures
        r@ == url_decoded(s@),
        (forall|i: int| 0 <= i < s@.len() ==> s@[i] != '%') ==> r@ == s@,
{
    match urlencoding::decode(s) {
        Ok(cow) => cow.into_owned(),
        Err(_) => String::new(),
    }
}

/// The scheme `url::Url::parse` reads from this URL.
pub uninterp spec fn url_scheme(s: Seq<char>) -> Seq<char>;

/// The host name `url::Url::parse` reads from this URL, without the port.
pub uninterp spec fn url_host(s: Seq<char>) -> Seq<char>;

/// Relies on `url::Url::parse`, `Url::scheme` and `Url::host_str`: parses the
/// URL and hands back its scheme and host. `None` when the URL does not parse
/// or has no host.
#[verifier::external_body]
fn parse_scheme_host(u: &str) -> (r: Option<(String, String)>)
    ensures
        match r {
            Some(p) => p.0@ == url_scheme(u@) && p.1@ == url_host(u@),
            None => true,
        },
{
    match url::Url::parse(u) {
        Ok(parsed) => match parsed.host_str() {
            Some(h) => Some((parsed.scheme().to_string(), h.to_string())),
            None => None,
        },
        Err(_) => None,
    }
}

/// Does the candidate string start with `http://` or `https://`? Such a
/// candidate is fetched over HTTP; anything else is handed to the engine as
/// a magnet.
pub fn is_http_url(u: &str) -> (r: bool)
    ensures
        r == (starts_with(u@, "http://"@) || starts_with(u@, "https://"@)),
{
    let v = chars_vec(u);
    starts_with_chars(&v, &chars_vec("http://")) || starts_with_chars(&v, &chars_vec("https://"))
}

/// The suffix of `v` from `from` on.
fn suffix_chars(v: &Vec<char>, from: usize) -> (r: Vec<char>)
    requires
        from <= v@.len(),
    ensures
        r@ == v@.skip(from as int),
{
    let mut r: Vec<char> = Vec::new();
    let mut i: usize = from;
    while i < v.len()
        invariant
            from <= i <= v@.len(),
            r@ == v@.subrange(from as int, i as int),
        decreases v@.len() - i,
    {
        r.push(v[i]);
        i += 1;
        proof {
            assert(r@ =~= v@.subrange(from as int, i as int));
        }
    }
    proof {
        assert(r@ =~= v@.skip(from as int));
    }
    r
}

/// The magnet URI a redirect target carries: the target itself when it is a
/// magnet; else the percent-decoded target from its first `magnet:` on; else,
/// when only the raw target mentions `magnet:`, the target unchanged.
pub open spec fn magnet_carried(loc: Seq<char>) -> Seq<char> {
    if starts_with(loc, "magnet:"@) {
        loc
    } else if contains_seq(url_decoded(loc), "magnet:"@) {
        url_decoded(loc).skip(first_magnet_at(url_decoded(loc)))
    } else {
        loc
    }
}

/// The first position where `magnet:` occurs (meaningful when it occurs).
pub open spec fn first_magnet_at(s: Seq<char>) -> int {
    choose|i: int|
        matches_at(s, "magnet:"@, i) && forall|k: int| 0 <= k < i ==> !matches_at(s, "magnet:"@, k)
}

/// Extract the magnet URI from a redirect target, if it carries one.
pub fn magnet_from_location(location: &str) -> (r: Option<String>)
    ensures
        match r {
            Some(m) => (starts_with(location@, "magnet:"@) || contains_seq(
                location@,
                "magnet:"@,
            )) && m@ == magnet_carried(location@),
            None => !starts_with(location@, "magnet:"@) && !contains_seq(location@, "magnet:"@),
        },
{
    let v = chars_vec(location);
    let needle = chars_vec("magnet:");
    if starts_with_chars(&v, &needle) {
        proof {
            assert(matches_at(v@, "magnet:"@, 0)) by {
                assert(v@.subrange(0, "magnet:"@.len() as int) =~= v@.take("magnet:"@.len() as int));
            }
        }
        return Some(String::from_str(location));
    }
    if contains_chars(&v, &needle) {
        let decoded = percent_decode(location);
        let dv = chars_vec(decoded.as_str());
        match find_chars(&dv, &needle) {
            Some(i) => {
                proof {
                    assert(first_magnet_at(dv@) == i as int) by {
                        let j = first_magnet_at(dv@);
                        assert(matches_at(dv@, "magnet:"@, i as int) && forall|k: int|
                            0 <= k < i ==> !matches_at(dv@, "magnet:"@, k));
                    }
                }
                let tail = suffix_chars(&dv, i);
                return Some(string_from_chars(&tail));
            },
            None => {
                return Some(String::from_str(location));
            },
        }
    }
    None
}

/// The resolved redirect target: an absolute target stands as it is; an
/// absolute path is joined to the current URL's scheme and host; anything
/// else is joined to the current URL's directory (the part up to its last
/// slash, or all of it when it has none).
pub open spec fn redirect_target(current: Seq<char>, loc: Seq<char>) -> Seq<char> {
    if starts_with(loc, "http://"@) || starts_with(loc, "https://"@) {
        loc
    } else if loc.len() > 0 && loc[0] == '/' {
        url_scheme(current) + "://"@ + url_host(current) + loc
    } else {
        dir_prefix(current) + "/"@ + loc
    }
}

/// The part of `s` before its last `/`, or all of `s` when it has none.
pub open spec fn dir_prefix(s: Seq<char>) -> Seq<char> {
    if exists|i: int| 0 <= i < s.len() && s[i] == '/' {
        s.take(last_slash_at(s))
    } else {
        s
    }
}

/// The position of the last `/` (meaningful when one occurs).
pub open spec fn last_slash_at(s: Seq<char>) -> int {
    choose|i: int|
        0 <= i < s.len() && s[i] == '/' && forall|k: int| i < k < s.len() ==> s[k] != '/'
}

/// The current URL's directory part, for joining a relative redirect.
fn dir_prefix_exec(v: &Vec<char>) -> (r: Vec<char>)
    ensures
        r@ == dir_prefix(v@),
{
    let mut i: usize = v.len();
    while i > 0
        invariant
            i <= v@.len(),
            forall|k: int| i <= k < v@.len() ==> v@[k] != '/',
        decreases i,
    {
        i -= 1;
        if v[i] == '/' {
            let mut r: Vec<char> = Vec::new();
            let mut j: usize = 0;
            while j < i
                invariant
                    j <= i < v@.len(),
                    v@[i as int] == '/',
                    r@ == v@.subrange(0, j as int),
                decreases i - j,
            {
                r.push(v[j]);
                j += 1;
                proof {
                    assert(r@ =~= v@.subrange(0, j as int));
                }
            }
            proof {
                assert(last_slash_at(v@) == i as int) by {
                    let w = last_slash_at(v@);
                    assert(0 <= i < v@.len() && v@[i as int] == '/' && forall|k: int|
                        i < k < v@.len() ==> v@[k] != '/');
                }
                assert(r@ =~= v@.take(i as int));
            }
            return r;
        }
    }
    proof {
        assert(forall|k: int| 0 <= k < v@.len() ==> v@[k] != '/');
    }
    let mut r: Vec<char> = Vec::new();
    let mut j: usize = 0;
    while j < v.len()
        invariant
            j <= v@.len(),
            r@ == v@.subrange(0, j as int),
        decreases v@.len() - j,
    {
        r.push(v[j]);
        j += 1;
        proof {
            assert(r@ =~= v@.subrange(0, j as int));
        }
    }
    proof {
        assert(r@ =~= v@);
    }
    r
}

/// Resolve a redirect target against the current URL. Fails only when an
/// absolute-path target needs the current URL's scheme and host and the
/// current URL does not parse.
pub fn resolve_redirect(current: &str, location: &str) -> (r: Result<String, StreamError>)
    ensures
        match r {
            Ok(u) => u@ == redirect_target(current@, location@),
            Err(e) => e is TorrentError && location@.len() > 0 && location@[0] == '/' && !(
            starts_with(location@, "http://"@) || starts_with(location@, "https://"@)),
        },
{
    let lv = chars_vec(location);
    if starts_with_chars(&lv, &chars_vec("http://")) || starts_with_chars(&lv, &chars_vec("https://"))
    {
        return Ok(String::from_str(location));
    }
    if lv.len() > 0 && lv[0] == '/' {
        match parse_scheme_host(current) {
            Some((scheme, host)) => {
                let mut out = chars_vec(scheme.as_str());
                append_chars(&mut out, &chars_vec("://"));
                append_chars(&mut out, &chars_vec(host.as_str()));
                append_chars(&mut out, &lv);
                return Ok(string_from_chars(&out));
            },
            None => {
                return Err(
                    StreamError::TorrentError(String::from_str("invalid redirect base URL")),
                );
            },
        }
    }
    let cv = chars_vec(current);
    let mut out = dir_prefix_exec(&cv);
    append_chars(&mut out, &chars_vec("/"));
    append_chars(&mut out, &lv);
    Ok(string_from_chars(&out))
}

/// What one redirect hop decides.
pub enum RedirectStep {
    /// The response is the payload itself; resolution is done.
    Success,
    /// Follow the redirect to this URL.
    Follow(String),
    /// The redirect carries a magnet URI: restart resolution with it. A
    /// distinct success path, not a failure.
    Magnet(String),
    /// This candidate is finished, with the given failure.
    Fail(StreamError),
}

/// Decide one hop of the manual redirect loop from the response's status
/// code, its `Location` header, and how many redirects were already taken.
///
/// A success status delivers the payload. A redirect beyond the hop limit, a
/// redirect without a target, or a status outside the success and
/// redirection classes fails the candidate. Within the hop limit, a redirect
/// whose target carries a magnet URI restarts resolution with that magnet;
/// any other target is followed, except that an absolute-path target whose
/// current URL does not parse fails.
pub fn redirect_hop(status: u16, location: Option<&str>, redirects: u32, current: &str) -> (r:
    RedirectStep)
    ensures
        200 <= status < 300 ==> r is Success,
        !(200 <= status < 300) && !(300 <= status < 400) ==> r is Fail,
        300 <= status < 400 && redirects >= MAX_REDIRECTS ==> r is Fail,
        300 <= status < 400 && redirects < MAX_REDIRECTS ==> match location {
            Some(loc) => {
                if starts_with(loc@, "magnet:"@) || contains_seq(loc@, "magnet:"@) {
                    r matches RedirectStep::Magnet(m) && m@ == magnet_carried(loc@)
                } else if !(starts_with(loc@, "http://"@) || starts_with(loc@, "https://"@))
                    && loc@.len() > 0 && loc@[0] == '/' {
                    // the one target kind whose resolution can fail: an
                    // absolute path against an unparsable current URL
                    (r matches RedirectStep::Follow(u) && u@ == redirect_target(current@, loc@))
                        || (r matches RedirectStep::Fail(e) && e is TorrentError)
                } else {
                    r matches RedirectStep::Follow(u) && u@ == redirect_target(current@, loc@)
                }
            },
            None => r is Fail,
        },
{
    if 200 <= status && status < 300 {
        return RedirectStep::Success;
    }
    if !(300 <= status && status < 400) {
        let mut msg = chars_vec("HTTP ");
        append_chars(&mut msg, &u64_to_chars(status as u64));
        return RedirectStep::Fail(StreamError::TorrentError(string_from_chars(&msg)));
    }
    if redirects >= MAX_REDIRECTS {
        return RedirectStep::Fail(
            StreamError::TorrentError(String::from_str("too many redirects")),
        );
    }
    match location {
        Some(loc) => {
            match magnet_from_location(loc) {
                Some(m) => RedirectStep::Magnet(m),
                None => match resolve_redirect(current, loc) {
                    Ok(u) => RedirectStep::Follow(u),
                    Err(e) => RedirectStep::Fail(e),
                },
            }
        },
        None => RedirectStep::Fail(
            StreamError::TorrentError(String::from_str("redirect without location header")),
        ),
    }
}

} // verus!
