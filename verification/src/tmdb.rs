//! Records from the metadata-enrichment collaborator, as plain values, and
//! the episode formatters built on them. The HTTP client that fills them
//! lives at the edge; ratings are carried in tenths of a point.
use vstd::prelude::*;

verus! {

use crate::text::{append_chars, chars_vec, dec_str, string_from_chars, u64_to_chars};

/// Enrichment metadata for the current search.
pub struct TmdbMetadata {
    pub id: Option<u64>,
    pub title: String,
    pub year: Option<u16>,
    pub overview: Option<String>,
    /// Average rating in tenths of a point (73 stands for 7.3).
    pub rating: Option<u64>,
    pub media_type: Option<String>,
    pub poster_url: Option<String>,
}

/// One autocomplete suggestion.
pub struct TmdbSuggestion {
    pub id: u64,
    pub title: String,
    pub year: Option<u16>,
    pub media_type: String,
}

/// A TV show with its seasons.
pub struct TvDetails {
    pub id: u64,
    pub name: String,
    pub overview: Option<String>,
    pub first_air_date: Option<String>,
    pub poster_url: Option<String>,
    pub number_of_seasons: u32,
    pub number_of_episodes: u32,
    pub seasons: Vec<SeasonSummary>,
}

/// One season, as listed in a show's details.
pub struct SeasonSummary {
    pub id: u64,
    pub name: String,
    pub season_number: u32,
    pub episode_count: u32,
    pub air_date: Option<String>,
    pub poster_url: Option<String>,
    pub overview: Option<String>,
}

/// One episode of a season.
pub struct Episode {
    pub id: u64,
    pub name: String,
    pub episode_number: u32,
    pub season_number: u32,
    pub air_date: Option<String>,
    pub overview: Option<String>,
    pub still_path: Option<String>,
    pub runtime: Option<u32>,
    /// Average rating in tenths of a point.
    pub vote_average: Option<u64>,
}

/// A number padded to at least two decimal digits.
pub open spec fn pad2(n: nat) -> Seq<char> {
    if n < 10 {
        seq!['0'] + dec_str(n)
    } else {
        dec_str(n)
    }
}

/// The digits of `n`, zero-padded to at least two.
pub fn pad2_chars(n: u32) -> (v: Vec<char>)
    ensures
        v@ == pad2(n as nat),
{
    let mut v: Vec<char> = Vec::new();
    if n < 10 {
        v.push('0');
    }
    append_chars(&mut v, &u64_to_chars(n as u64));
    proof {
        if n < 10 {
            assert(v@ =~= seq!['0'] + dec_str(n as nat));
        }
    }
    v
}

impl Episode {
    /// The episode shown as `S01E02 - Name`.
    pub fn display_title(&self) -> (r: String)
        ensures
            r@ == "S"@ + pad2(self.season_number as nat) + "E"@ + pad2(self.episode_number as nat)
                + " - "@ + self.name@,
    {
        let mut v = chars_vec("S");
        append_chars(&mut v, &pad2_chars(self.season_number));
        append_chars(&mut v, &chars_vec("E"));
        append_chars(&mut v, &pad2_chars(self.episode_number));
        append_chars(&mut v, &chars_vec(" - "));
        append_chars(&mut v, &chars_vec(self.name.as_str()));
        string_from_chars(&v)
    }

    /// The query used to search for this one episode of a show.
    pub fn search_query(&self, show_name: &str) -> (r: String)
        ensures
            r@ == show_name@ + " S"@ + pad2(self.season_number as nat) + "E"@ + pad2(
                self.episode_number as nat,
            ),
    {
        let mut v = chars_vec(show_name);
        append_chars(&mut v, &chars_vec(" S"));
        append_chars(&mut v, &pad2_chars(self.season_number));
        append_chars(&mut v, &chars_vec("E"));
        append_chars(&mut v, &pad2_chars(self.episode_number));
        string_from_chars(&v)
    }
}

} // verus!
