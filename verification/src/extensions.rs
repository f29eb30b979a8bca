//! What the notification extensions (desktop presence, watch-history sync)
//! are told about playback, and the season/episode numbers parsed from a
//! file name for them. The extensions themselves, and the dispatch over
//! their trait objects, run at the edge; percentages are whole percent.
//!
//! Four name patterns are recognised, in order of preference: `S01E02`,
//! `1x02` (both as the episode sort key knows them), `Season 1 Episode 2`
//! (the words, case-insensitively, each followed by dots or spaces and a
//! number; the first season marker pairs with the last episode marker after
//! it), and a delimited compact form `.102.` (separator, season digit,
//! two episode digits, separator, both numbers non-zero).
use vstd::prelude::*;

verus! {

use crate::episodes::{
    digit_of, ep_val_at, is_digit, scan_nxm, scan_nxm_exec, scan_sxex, scan_sxex_exec,
    digit_of_exec, ep_val_exec, is_digit_exec,
};
use crate::text::{chars_vec, lower_char};

/// What is playing, as handed to every extension.
pub struct MediaInfo {
    pub title: String,
    pub file_name: String,
    pub total_bytes: u64,
    /// Enrichment identifier, when known.
    pub tmdb_id: Option<u64>,
    pub year: Option<u32>,
    /// `"movie"` or `"tv"`, when known.
    pub media_type: Option<String>,
    pub poster_url: Option<String>,
    /// Season parsed from the file name, when any.
    pub season: Option<u32>,
    /// Episode parsed from the file name, when any.
    pub episode: Option<u32>,
}

/// A playback event broadcast to every extension.
pub enum PlaybackEvent {
    Started(MediaInfo),
    Progress { media: MediaInfo, downloaded_bytes: u64, position_percent: u64 },
    Stopped { media: MediaInfo, watched_percent: u64 },
}

/// A separator between a marker word and its number: a dot or ASCII
/// whitespace.
pub open spec fn is_sep(c: char) -> bool {
    c == '.' || c == ' ' || c == '\t' || c == '\n' || c == '\r'
}

/// Length of the maximal separator run starting at `j`.
pub open spec fn sep_run(s: Seq<char>, j: int) -> int
    decreases s.len() - j,
{
    if j < 0 || j >= s.len() || !is_sep(s[j]) {
        0
    } else {
        1 + sep_run(s, j + 1)
    }
}

/// The word `season`, case-insensitively, at position `i`.
pub open spec fn season_word_at(s: Seq<char>, i: int) -> bool {
    &&& 0 <= i
    &&& i + 6 <= s.len()
    &&& lower_char(s[i]) == 's'
    &&& lower_char(s[i + 1]) == 'e'
    &&& lower_char(s[i + 2]) == 'a'
    &&& lower_char(s[i + 3]) == 's'
    &&& lower_char(s[i + 4]) == 'o'
    &&& lower_char(s[i + 5]) == 'n'
}

/// The word `episode`, case-insensitively, at position `i`.
pub open spec fn episode_word_at(s: Seq<char>, i: int) -> bool {
    &&& 0 <= i
    &&& i + 7 <= s.len()
    &&& lower_char(s[i]) == 'e'
    &&& lower_char(s[i + 1]) == 'p'
    &&& lower_char(s[i + 2]) == 'i'
    &&& lower_char(s[i + 3]) == 's'
    &&& lower_char(s[i + 4]) == 'o'
    &&& lower_char(s[i + 5]) == 'd'
    &&& lower_char(s[i + 6]) == 'e'
}

/// Where the season number's digits start, after the word and its
/// separators (meaningful when `season_word_at` holds).
pub open spec fn season_digits_at(s: Seq<char>, i: int) -> int {
    i + 6 + sep_run(s, i + 6)
}

/// A full season marker at `i`: the word, separators, then a digit.
pub open spec fn season_marker_at(s: Seq<char>, i: int) -> bool {
    &&& season_word_at(s, i)
    &&& season_digits_at(s, i) < s.len()
    &&& is_digit(s[season_digits_at(s, i)])
}

/// The greedy one-or-two digit season number starting at `d`.
pub open spec fn season_val_at(s: Seq<char>, d: int) -> int {
    if d + 1 < s.len() && is_digit(s[d + 1]) {
        digit_of(s[d]) * 10 + digit_of(s[d + 1])
    } else {
        digit_of(s[d])
    }
}

/// Where the season marker's digits end (meaningful when it matches).
pub open spec fn season_marker_end(s: Seq<char>, i: int) -> int {
    let d = season_digits_at(s, i);
    if d + 1 < s.len() && is_digit(s[d + 1]) {
        d + 2
    } else {
        d + 1
    }
}

/// Where the episode number's digits start (meaningful when
/// `episode_word_at` holds).
pub open spec fn episode_digits_at(s: Seq<char>, k: int) -> int {
    k + 7 + sep_run(s, k + 7)
}

/// A full episode marker at `k`: the word, separators, then a digit.
pub open spec fn episode_marker_at(s: Seq<char>, k: int) -> bool {
    &&& episode_word_at(s, k)
    &&& episode_digits_at(s, k) < s.len()
    &&& is_digit(s[episode_digits_at(s, k)])
}

/// The rightmost episode marker at or after `floor`, scanning down from
/// `k`, if any.
pub open spec fn scan_episode_back(s: Seq<char>, k: int, floor: int) -> Option<int>
    decreases k - floor + 1,
{
    if k < floor {
        None
    } else if episode_marker_at(s, k) {
        Some(k)
    } else {
        scan_episode_back(s, k - 1, floor)
    }
}

/// The key of the leftmost pairable season marker at or after `i`: its
/// season number with the last episode marker after its digits, if any.
pub open spec fn scan_season_episode(s: Seq<char>, i: int) -> Option<(int, int)>
    decreases s.len() - i,
{
    if i < 0 || i >= s.len() {
        None
    } else if season_marker_at(s, i) && scan_episode_back(
        s,
        s.len() - 1,
        season_marker_end(s, i),
    ) is Some {
        let k = scan_episode_back(s, s.len() - 1, season_marker_end(s, i))->0;
        Some((season_val_at(s, season_digits_at(s, i)), ep_val_at(s, episode_digits_at(s, k))))
    } else {
        scan_season_episode(s, i + 1)
    }
}

/// The delimited compact form at `i`: separator, season digit, two episode
/// digits, separator, both numbers non-zero (so a year never matches).
pub open spec fn compact_at(s: Seq<char>, i: int) -> bool {
    &&& 0 <= i
    &&& i + 4 < s.len()
    &&& is_sep(s[i])
    &&& is_digit(s[i + 1])
    &&& is_digit(s[i + 2])
    &&& is_digit(s[i + 3])
    &&& is_sep(s[i + 4])
    &&& digit_of(s[i + 1]) >= 1
    &&& digit_of(s[i + 2]) * 10 + digit_of(s[i + 3]) >= 1
}

pub open spec fn compact_key_at(s: Seq<char>, i: int) -> (int, int) {
    (digit_of(s[i + 1]), digit_of(s[i + 2]) * 10 + digit_of(s[i + 3]))
}

/// The key at the leftmost compact-form occurrence at or after `i`, if any.
pub open spec fn scan_compact(s: Seq<char>, i: int) -> Option<(int, int)>
    decreases s.len() - i,
{
    if i < 0 || i >= s.len() {
        None
    } else if compact_at(s, i) {
        Some(compact_key_at(s, i))
    } else {
        scan_compact(s, i + 1)
    }
}

/// The season and episode a file name carries: the first of the four
/// patterns that matches, leftmost occurrence first.
pub open spec fn spec_parse_episode(s: Seq<char>) -> Option<(int, int)> {
    match scan_sxex(s, 0) {
        Some(k) => Some(k),
        None => match scan_nxm(s, 0) {
            Some(k) => Some(k),
            None => match scan_season_episode(s, 0) {
                Some(k) => Some(k),
                None => scan_compact(s, 0),
            },
        },
    }
}

fn is_sep_exec(c: char) -> (r: bool)
    ensures
        r == is_sep(c),
{
    c == '.' || c == ' ' || c == '\t' || c == '\n' || c == '\r'
}

/// The position after the separator run starting at `j`.
fn skip_seps(v: &Vec<char>, j: usize) -> (r: usize)
    requires
        j <= v@.len(),
    ensures
        j <= r <= v@.len(),
        r == j + sep_run(v@, j as int),
{
    let n = v.len();
    let mut k = j;
    while k < n && is_sep_exec(v[k])
        invariant
            j <= k <= n,
            n == v@.len(),
            sep_run(v@, j as int) == k - j + sep_run(v@, k as int),
        decreases n - k,
    {
        k += 1;
    }
    k
}

/// Is one of the marker words, case-insensitively, at `i`? `w` selects the
/// word: the season word when true, the episode word otherwise.
fn word_at_exec(v: &Vec<char>, i: usize, w: bool) -> (r: bool)
    requires
        i <= v@.len(),
    ensures
        w ==> r == season_word_at(v@, i as int),
        !w ==> r == episode_word_at(v@, i as int),
{
    let n = v.len();
    if w {
        n - i >= 6 && lower_eq(v[i], 's') && lower_eq(v[i + 1], 'e') && lower_eq(v[i + 2], 'a')
            && lower_eq(v[i + 3], 's') && lower_eq(v[i + 4], 'o') && lower_eq(v[i + 5], 'n')
    } else {
        n - i >= 7 && lower_eq(v[i], 'e') && lower_eq(v[i + 1], 'p') && lower_eq(v[i + 2], 'i')
            && lower_eq(v[i + 3], 's') && lower_eq(v[i + 4], 'o') && lower_eq(v[i + 5], 'd')
            && lower_eq(v[i + 6], 'e')
    }
}

fn lower_eq(c: char, want: char) -> (r: bool)
    ensures
        r == (lower_char(c) == want),
{
    crate::text::lower_char_exec(c) == want
}

/// The rightmost full episode marker at or after `floor`, with the start of
/// its digits, if any.
fn scan_episode_back_exec(v: &Vec<char>, floor: usize) -> (r: Option<(usize, usize)>)
    requires
        floor <= v@.len(),
    ensures
        match r {
            Some(kd) => {
                &&& v@.len() > 0
                &&& scan_episode_back(v@, v@.len() - 1, floor as int) == Some(kd.0 as int)
                &&& kd.1 == episode_digits_at(v@, kd.0 as int)
                &&& kd.1 < v@.len()
                &&& is_digit(v@[kd.1 as int])
            },
            None => v@.len() == 0 || scan_episode_back(v@, v@.len() - 1, floor as int) is None,
        },
{
    let n = v.len();
    if n == 0 {
        return None;
    }
    let mut k = n;
    while k > floor
        invariant
            floor <= k <= n,
            n == v@.len(),
            scan_episode_back(v@, n - 1, floor as int) == scan_episode_back(
                v@,
                k - 1,
                floor as int,
            ),
        decreases k,
    {
        k -= 1;
        if word_at_exec(v, k, false) {
            let d = skip_seps(v, k + 7);
            if d < n && is_digit_exec(v[d]) {
                proof {
                    assert(d == episode_digits_at(v@, k as int));
                    assert(episode_marker_at(v@, k as int));
                }
                return Some((k, d));
            }
            proof {
                assert(d == episode_digits_at(v@, k as int));
                assert(!episode_marker_at(v@, k as int));
            }
        } else {
            proof {
                assert(!episode_marker_at(v@, k as int));
            }
        }
    }
    None
}

/// The leftmost pairable `Season N ... Episode M` key in `v`, if any.
fn scan_season_episode_exec(v: &Vec<char>) -> (r: Option<(u32, u32)>)
    ensures
        match r {
            Some(k) => scan_season_episode(v@, 0) == Some((k.0 as int, k.1 as int)) && k.0 <= 99
                && k.1 <= 999,
            None => scan_season_episode(v@, 0) is None,
        },
{
    let n = v.len();
    let mut i: usize = 0;
    while i < n
        invariant
            n == v@.len(),
            i <= n,
            scan_season_episode(v@, 0) == scan_season_episode(v@, i as int),
        decreases n - i,
    {
        if word_at_exec(v, i, true) {
            let d = skip_seps(v, i + 6);
            if d < n && is_digit_exec(v[d]) {
                proof {
                    assert(season_marker_at(v@, i as int));
                    assert(d == season_digits_at(v@, i as int));
                }
                let send = if d + 1 < n && is_digit_exec(v[d + 1]) {
                    d + 2
                } else {
                    d + 1
                };
                proof {
                    assert(send == season_marker_end(v@, i as int));
                }
                match scan_episode_back_exec(v, send) {
                    Some((_k, ed)) => {
                        let season = if d + 1 < n && is_digit_exec(v[d + 1]) {
                            digit_of_exec(v[d]) * 10 + digit_of_exec(v[d + 1])
                        } else {
                            digit_of_exec(v[d])
                        };
                        let episode = ep_val_exec(v, ed);
                        proof {
                            assert(scan_season_episode(v@, i as int) == Some(
                                (
                                    season_val_at(v@, d as int),
                                    ep_val_at(v@, ed as int),
                                ),
                            ));
                        }
                        return Some((season, episode));
                    },
                    None => {
                        proof {
                            assert(scan_season_episode(v@, i as int) == scan_season_episode(
                                v@,
                                i + 1,
                            ));
                        }
                    },
                }
            } else {
                proof {
                    assert(!season_marker_at(v@, i as int));
                }
            }
        } else {
            proof {
                assert(!season_marker_at(v@, i as int));
            }
        }
        i += 1;
    }
    None
}

/// The leftmost delimited compact key in `v`, if any.
fn scan_compact_exec(v: &Vec<char>) -> (r: Option<(u32, u32)>)
    ensures
        match r {
            Some(k) => scan_compact(v@, 0) == Some((k.0 as int, k.1 as int)) && k.0 <= 9 && k.1
                <= 99,
            None => scan_compact(v@, 0) is None,
        },
{
    let n = v.len();
    let mut i: usize = 0;
    while i < n
        invariant
            n == v@.len(),
            i <= n,
            scan_compact(v@, 0) == scan_compact(v@, i as int),
        decreases n - i,
    {
        if n - i > 4 && is_sep_exec(v[i]) && is_digit_exec(v[i + 1]) && is_digit_exec(v[i + 2])
            && is_digit_exec(v[i + 3]) && is_sep_exec(v[i + 4]) {
            let season = digit_of_exec(v[i + 1]);
            let episode = digit_of_exec(v[i + 2]) * 10 + digit_of_exec(v[i + 3]);
            if season >= 1 && episode >= 1 {
                return Some((season, episode));
            }
        }
        proof {
            assert(!compact_at(v@, i as int));
        }
        i += 1;
    }
    None
}

/// Parse season and episode numbers from a file name, trying `S01E02`,
/// then `1x02`, then `Season N ... Episode M`, then the delimited compact
/// form; both numbers are absent when no pattern matches.
pub fn parse_episode_info(filename: &str) -> (r: (Option<u32>, Option<u32>))
    ensures
        match spec_parse_episode(filename@) {
            Some(k) => (r.0 matches Some(a) && a == k.0) && (r.1 matches Some(b) && b == k.1),
            None => r.0 is None && r.1 is None,
        },
{
    let v = chars_vec(filename);
    if let Some(k) = scan_sxex_exec(&v) {
        return (Some(k.0), Some(k.1));
    }
    if let Some(k) = scan_nxm_exec(&v) {
        return (Some(k.0), Some(k.1));
    }
    if let Some(k) = scan_season_episode_exec(&v) {
        return (Some(k.0), Some(k.1));
    }
    if let Some(k) = scan_compact_exec(&v) {
        return (Some(k.0), Some(k.1));
    }
    (None, None)
}

} // verus!
