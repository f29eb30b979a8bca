//! Candidate search results as the indexer collaborator hands them over:
//! one record per release, with the links a race can use and a
//! human-readable size label.
use vstd::prelude::*;

verus! {

use crate::text::{
    append_chars, chars_vec, dec_str, digit_char, round_half_even, rounded_div_half_even,
    starts_with, starts_with_chars, string_from_chars, u64_to_chars,
};

/// One release offered by an indexer.
pub struct TorrentResult {
    pub title: String,
    /// Download link: a `.torrent` URL, sometimes a magnet URI.
    pub link: Option<String>,
    /// Magnet URI, when the indexer reports one directly.
    pub magnet_url: Option<String>,
    /// Info-hash, from which a magnet URI can be built.
    pub infohash: Option<String>,
    /// Size in bytes, when reported.
    pub size: Option<u64>,
    pub seeders: Option<u32>,
    pub leechers: Option<u32>,
    /// Name of the indexer that returned this result.
    pub indexer: String,
}

/// One indexer as the search collaborator lists it.
pub struct Indexer {
    pub id: i32,
    pub name: String,
    pub enable: bool,
    pub protocol: String,
    pub privacy: String,
    pub supports_search: bool,
}

impl Indexer {
    /// An indexer is usable when it is enabled, serves torrents, and
    /// supports searching.
    pub fn is_usable(&self) -> (r: bool)
        ensures
            r == (self.enable && self.protocol@ == "torrent"@ && self.supports_search),
    {
        let t = String::from_str("torrent");
        self.enable && self.protocol == t && self.supports_search
    }
}

pub const BYTES_PER_MB: u64 = 1024 * 1024;

pub const BYTES_PER_GB: u64 = 1024 * 1024 * 1024;

/// The size in hundredths of a gibibyte, rounded to the nearest with ties
/// to even.
pub open spec fn gb_hundredths(b: int) -> int {
    round_half_even(b * 100, BYTES_PER_GB as int)
}

/// The size in tenths of a mebibyte, rounded to the nearest with ties to
/// even.
pub open spec fn mb_tenths(b: int) -> int {
    round_half_even(b * 10, BYTES_PER_MB as int)
}

/// The label shown for a size: `"?"` when unknown, two-decimal gibibytes
/// from one gibibyte up, one-decimal mebibytes below that. Figures are
/// rounded to the nearest, halves to the even neighbour, the way a
/// formatter renders exact halves.
pub open spec fn size_label(size: Option<u64>) -> Seq<char> {
    match size {
        Some(b) => {
            if b >= BYTES_PER_GB {
                let q = gb_hundredths(b as int);
                dec_str((q / 100) as nat) + "."@ + seq![
                    digit_char(q % 100 / 10),
                    digit_char(q % 10),
                ] + " GB"@
            } else {
                let q = mb_tenths(b as int);
                dec_str((q / 10) as nat) + "."@ + seq![digit_char(q % 10)] + " MB"@
            }
        },
        None => "?"@,
    }
}

/// What `urlencoding::encode` yields for this input.
pub uninterp spec fn url_encoded(s: Seq<char>) -> Seq<char>;

/// Relies on `urlencoding::encode`: percent-encodes every byte except ASCII
/// letters, digits and `-`, `_`, `.`, `~`.
#[verifier::external_body]
fn percent_encode(s: &str) -> (r: String)
    ensures
        r@ == url_encoded(s@),
{
    urlencoding::encode(s).into_owned()
}

/// The URL a race can hand to the transfer engine for this result: the
/// reported magnet first; then a link that is itself a magnet; then a magnet
/// built from the info-hash, carrying the percent-encoded title as its
/// display name; then the plain link; nothing otherwise.
pub open spec fn torrent_url_of(
    title: Seq<char>,
    link: Option<Seq<char>>,
    magnet: Option<Seq<char>>,
    infohash: Option<Seq<char>>,
) -> Option<Seq<char>> {
    if magnet is Some {
        magnet
    } else if link is Some && starts_with(link->0, "magnet:"@) {
        link
    } else if infohash is Some {
        Some("magnet:?xt=urn:btih:"@ + infohash->0 + "&dn="@ + url_encoded(title))
    } else {
        link
    }
}

/// The view of an optional string.
pub open spec fn opt_view(o: Option<String>) -> Option<Seq<char>> {
    match o {
        Some(s) => Some(s@),
        None => None,
    }
}

impl TorrentResult {
    /// The size as shown to the user.
    pub fn size_human(&self) -> (r: String)
        ensures
            r@ == size_label(self.size),
    {
        match self.size {
            Some(b) => {
                if b >= BYTES_PER_GB {
                    let q = rounded_div_half_even((b as u128) * 100, BYTES_PER_GB as u128);
                    let whole = (q / 100) as u64;
                    let d1 = ((q % 100) / 10) as u64;
                    let d2 = (q % 10) as u64;
                    let mut v = u64_to_chars(whole);
                    append_chars(&mut v, &chars_vec("."));
                    let mut frac: Vec<char> = Vec::new();
                    frac.push(digit_char_exec(d1));
                    frac.push(digit_char_exec(d2));
                    proof {
                        assert(frac@ =~= seq![
                            digit_char(gb_hundredths(b as int) % 100 / 10),
                            digit_char(gb_hundredths(b as int) % 10),
                        ]);
                    }
                    append_chars(&mut v, &frac);
                    append_chars(&mut v, &chars_vec(" GB"));
                    string_from_chars(&v)
                } else {
                    let q = rounded_div_half_even((b as u128) * 10, BYTES_PER_MB as u128);
                    let whole = (q / 10) as u64;
                    let d1 = (q % 10) as u64;
                    let mut v = u64_to_chars(whole);
                    append_chars(&mut v, &chars_vec("."));
                    let mut frac: Vec<char> = Vec::new();
                    frac.push(digit_char_exec(d1));
                    proof {
                        assert(frac@ =~= seq![digit_char(mb_tenths(b as int) % 10)]);
                    }
                    append_chars(&mut v, &frac);
                    append_chars(&mut v, &chars_vec(" MB"));
                    string_from_chars(&v)
                }
            },
            None => String::from_str("?"),
        }
    }

    /// A URL the transfer engine can use, when the result offers any.
    pub fn get_torrent_url(&self) -> (r: Option<String>)
        ensures
            opt_view(r) == torrent_url_of(
                self.title@,
                opt_view(self.link),
                opt_view(self.magnet_url),
                opt_view(self.infohash),
            ),
    {
        if let Some(magnet) = &self.magnet_url {
            return Some(magnet.clone());
        }
        if let Some(link) = &self.link {
            let lv = chars_vec(link.as_str());
            let mv = chars_vec("magnet:");
            if starts_with_chars(&lv, &mv) {
                return Some(link.clone());
            }
        }
        if let Some(hash) = &self.infohash {
            let mut v = chars_vec("magnet:?xt=urn:btih:");
            append_chars(&mut v, &chars_vec(hash.as_str()));
            append_chars(&mut v, &chars_vec("&dn="));
            let encoded = percent_encode(self.title.as_str());
            append_chars(&mut v, &chars_vec(encoded.as_str()));
            return Some(string_from_chars(&v));
        }
        if let Some(link) = &self.link {
            return Some(link.clone());
        }
        None
    }

    /// Can this result feed a race at all?
    pub fn is_streamable(&self) -> (r: bool)
        ensures
            r == (self.magnet_url is Some || self.infohash is Some || self.link is Some),
    {
        self.magnet_url.is_some() || self.infohash.is_some() || self.link.is_some()
    }
}

fn digit_char_exec(d: u64) -> (c: char)
    requires
        d <= 9,
    ensures
        c == digit_char(d as int),
{
    ((48 + d) as u8) as char
}

} // verus!
