//! Validation criteria used while racing candidate sources: a release name is
//! accepted when it carries at least one of the configured keywords
//! (case-insensitively) and, when an expected year is configured, that year's
//! decimal digits.
//!
//! Case-insensitivity here is ASCII case folding, and keyword tokens are
//! runs of ASCII letters and digits: characters outside ASCII are left as
//! they are and act as token boundaries.
use vstd::prelude::*;

verus! {

use crate::text::{
    chars_eq, chars_vec, contains_chars, contains_seq, dec_str, lower, lower_char, lower_vec,
    string_from_chars, u64_to_chars,
};

/// A character that can be part of a keyword token: an ASCII letter or
/// digit. Anything else, non-ASCII letters included, separates tokens.
pub open spec fn is_word_char(c: char) -> bool {
    ('a' <= c && c <= 'z') || ('A' <= c && c <= 'Z') || ('0' <= c && c <= '9')
}

/// Length of the maximal word-character prefix of `s`.
pub open spec fn run_len(s: Seq<char>) -> int
    decreases s.len(),
{
    if s.len() == 0 || !is_word_char(s[0]) {
        0
    } else {
        1 + run_len(s.drop_first())
    }
}

/// `run_len` is between zero and the length of `s`.
pub proof fn lemma_run_len_range(s: Seq<char>)
    ensures
        0 <= run_len(s) <= s.len(),
    decreases s.len(),
{
    if s.len() == 0 || !is_word_char(s[0]) {
    } else {
        lemma_run_len_range(s.drop_first());
    }
}

/// The maximal runs of word characters in `s`, in order.
pub open spec fn tokens(s: Seq<char>) -> Seq<Seq<char>>
    decreases s.len(),
    via tokens_decreases
{
    if s.len() == 0 {
        seq![]
    } else if !is_word_char(s[0]) {
        tokens(s.drop_first())
    } else {
        seq![s.take(run_len(s))] + tokens(s.skip(run_len(s)))
    }
}

#[via_fn]
proof fn tokens_decreases(s: Seq<char>) {
    if s.len() > 0 && is_word_char(s[0]) {
        lemma_run_len_range(s.drop_first());
    }
}

/// One of the fixed English stop words that never becomes a keyword.
pub open spec fn is_stop_word(t: Seq<char>) -> bool {
    ||| t == seq!['t', 'h', 'e']
    ||| t == seq!['a']
    ||| t == seq!['a', 'n']
    ||| t == seq!['a', 'n', 'd']
    ||| t == seq!['o', 'r']
    ||| t == seq!['o', 'f']
    ||| t == seq!['i', 'n']
    ||| t == seq!['o', 'n']
    ||| t == seq!['a', 't']
    ||| t == seq!['t', 'o']
    ||| t == seq!['f', 'o', 'r']
}

/// A four-digit token, treated as a release year and excluded from keywords.
pub open spec fn is_year_token(t: Seq<char>) -> bool {
    t.len() == 4 && forall|i: int| 0 <= i < t.len() ==> '0' <= #[trigger] t[i] && t[i] <= '9'
}

/// A lower-cased token is kept as a keyword when it has at least three
/// characters and is neither a stop word nor a four-digit year.
pub open spec fn keep_token(t: Seq<char>) -> bool {
    t.len() >= 3 && !is_stop_word(t) && !is_year_token(t)
}

/// Lower-case the tokens and keep those that qualify as keywords.
pub open spec fn kept_tokens(ts: Seq<Seq<char>>) -> Seq<Seq<char>>
    decreases ts.len(),
{
    if ts.len() == 0 {
        seq![]
    } else {
        let rest = kept_tokens(ts.drop_last());
        if keep_token(lower(ts.last())) {
            rest.push(lower(ts.last()))
        } else {
            rest
        }
    }
}

/// Drop repeated tokens, keeping the first occurrence of each.
pub open spec fn dedup_tokens(ts: Seq<Seq<char>>) -> Seq<Seq<char>>
    decreases ts.len(),
{
    if ts.len() == 0 {
        seq![]
    } else {
        let rest = dedup_tokens(ts.drop_last());
        if rest.contains(ts.last()) {
            rest
        } else {
            rest.push(ts.last())
        }
    }
}

/// The keywords extracted from a query: its word-character runs, lower-cased,
/// with short tokens, stop words and four-digit years dropped, first
/// occurrences kept.
pub open spec fn keywords_of(s: Seq<char>) -> Seq<Seq<char>> {
    dedup_tokens(kept_tokens(tokens(s)))
}

/// At least one keyword occurs in the ASCII-case-folded name; an empty
/// keyword set accepts every name.
pub open spec fn keywords_match(keywords: Seq<Seq<char>>, name: Seq<char>) -> bool {
    keywords.len() == 0 || exists|k: int|
        0 <= k < keywords.len() && contains_seq(lower(name), #[trigger] keywords[k])
}

/// The expected year's decimal digits occur in the name; no expected year
/// accepts every name.
pub open spec fn year_matches(year: Option<u16>, name: Seq<char>) -> bool {
    match year {
        Some(y) => contains_seq(name, dec_str(y as nat)),
        None => true,
    }
}

/// A name passes the criteria when both the keyword clause and the year
/// clause hold.
pub open spec fn spec_matches(keywords: Seq<Seq<char>>, year: Option<u16>, name: Seq<char>) -> bool {
    keywords_match(keywords, name) && year_matches(year, name)
}

/// Criteria a resolved release name must meet to win a race.
pub struct TorrentValidation {
    /// Keyword tokens; at least one must occur in the case-folded name.
    pub title_keywords: Vec<String>,
    /// Expected release year; when set, its digits must occur in the name.
    pub year: Option<u16>,
}

impl TorrentValidation {
    pub fn new(title_keywords: Vec<String>, year: Option<u16>) -> (r: TorrentValidation)
        ensures
            r.title_keywords@ == title_keywords@,
            r.year == year,
    {
        TorrentValidation { title_keywords, year }
    }

    /// Does `filename` meet these criteria?
    pub fn matches(&self, filename: &str) -> (r: bool)
        ensures
            r == spec_matches(self.title_keywords.deep_view(), self.year, filename@),
    {
        let name = chars_vec(filename);
        let lname = lower_vec(&name);
        let mut title_ok = self.title_keywords.len() == 0;
        let mut i: usize = 0;
        while i < self.title_keywords.len()
            invariant
                i <= self.title_keywords@.len(),
                title_ok == (self.title_keywords@.len() == 0 || exists|k: int|
                    0 <= k < i && contains_seq(
                        lower(name@),
                        #[trigger] self.title_keywords.deep_view()[k],
                    )),
                name@ == filename@,
                lname@ == lower(filename@),
            decreases self.title_keywords@.len() - i,
        {
            let kw = chars_vec(self.title_keywords[i].as_str());
            if contains_chars(&lname, &kw) {
                proof {
                    assert(contains_seq(lower(name@), self.title_keywords.deep_view()[i as int]));
                }
                title_ok = true;
            }
            i += 1;
        }
        let year_ok = match self.year {
            Some(y) => {
                let digits = u64_to_chars(y as u64);
                contains_chars(&name, &digits)
            },
            None => true,
        };
        proof {
            assert(title_ok == keywords_match(self.title_keywords.deep_view(), filename@));
        }
        title_ok && year_ok
    }

    /// Extract keyword tokens from a search query.
    pub fn extract_keywords(query: &str) -> (r: Vec<String>)
        ensures
            r.deep_view() == keywords_of(query@),
    {
        let q = chars_vec(query);
        let toks = tokenize(&q);
        let mut out: Vec<String> = Vec::new();
        let ghost mut out_toks: Seq<Seq<char>> = seq![];
        let mut i: usize = 0;
        while i < toks.len()
            invariant
                i <= toks@.len(),
                toks.deep_view() == tokens(q@),
                q@ == query@,
                out.deep_view() == out_toks,
                out_toks == dedup_tokens(kept_tokens(tokens(q@).take(i as int))),
            decreases toks@.len() - i,
        {
            let lt = lower_vec(&toks[i]);
            proof {
                crate::text::lemma_chars_deep_view(toks@[i as int]);
                assert(lt@ == lower(tokens(q@)[i as int]));
                assert(tokens(q@).take(i as int + 1).drop_last() =~= tokens(q@).take(i as int));
                assert(tokens(q@).take(i as int + 1).last() == tokens(q@)[i as int]);
            }
            let keep = keep_token_exec(&lt);
            let dup = if keep {
                contains_token(&out, &lt)
            } else {
                false
            };
            if keep && !dup {
                out.push(string_from_chars(&lt));
                proof {
                    out_toks = out_toks.push(lt@);
                    assert(out.deep_view() =~= out_toks);
                }
            }
            proof {
                let ts = tokens(q@);
                let p = ts.take(i as int);
                let p1 = ts.take(i as int + 1);
                let x = lower(ts[i as int]);
                if keep_token(x) {
                    assert(kept_tokens(p1) == kept_tokens(p).push(x));
                    assert(kept_tokens(p).push(x).drop_last() =~= kept_tokens(p));
                    assert(kept_tokens(p).push(x).last() == x);
                }
            }
            i += 1;
        }
        proof {
            assert(tokens(q@).take(tokens(q@).len() as int) =~= tokens(q@));
        }
        out
    }
}

/// Join two keyword lists, dropping repeats and keeping first occurrences.
pub fn merge_keywords(a: &Vec<String>, b: &Vec<String>) -> (r: Vec<String>)
    ensures
        r.deep_view() == dedup_tokens(a.deep_view() + b.deep_view()),
{
    let ghost all = a.deep_view() + b.deep_view();
    let mut out: Vec<String> = Vec::new();
    let ghost mut out_toks: Seq<Seq<char>> = seq![];
    let mut i: usize = 0;
    proof {
        assert(all.take(0) =~= Seq::<Seq<char>>::empty());
    }
    while i < a.len()
        invariant
            i <= a@.len(),
            all == a.deep_view() + b.deep_view(),
            out.deep_view() == out_toks,
            out_toks == dedup_tokens(all.take(i as int)),
        decreases a@.len() - i,
    {
        let t = chars_vec(a[i].as_str());
        proof {
            assert(all.take(i as int + 1).drop_last() =~= all.take(i as int));
            assert(all.take(i as int + 1).last() == all[i as int]);
            assert(all[i as int] == t@);
        }
        if !contains_token(&out, &t) {
            out.push(string_from_chars(&t));
            proof {
                out_toks = out_toks.push(t@);
                assert(out.deep_view() =~= out_toks);
            }
        }
        i += 1;
    }
    let mut j: usize = 0;
    while j < b.len()
        invariant
            j <= b@.len(),
            all == a.deep_view() + b.deep_view(),
            out.deep_view() == out_toks,
            out_toks == dedup_tokens(all.take(a@.len() + j)),
        decreases b@.len() - j,
    {
        let t = chars_vec(b[j].as_str());
        proof {
            assert(all.take(a@.len() + j + 1).drop_last() =~= all.take(a@.len() + j));
            assert(all.take(a@.len() + j + 1).last() == all[a@.len() + j]);
            assert(all[a@.len() + j] == t@);
        }
        if !contains_token(&out, &t) {
            out.push(string_from_chars(&t));
            proof {
                out_toks = out_toks.push(t@);
                assert(out.deep_view() =~= out_toks);
            }
        }
        j += 1;
    }
    proof {
        assert(all.take(all.len() as int) =~= all);
    }
    out
}

/// The keywords a race's criteria carry: those of the query joined with
/// those of the enriched title, first occurrences kept.
pub open spec fn criteria_keywords(query: Seq<char>, enriched_title: Option<Seq<char>>) -> Seq<
    Seq<char>,
> {
    match enriched_title {
        Some(t) => dedup_tokens(keywords_of(query) + keywords_of(t)),
        None => dedup_tokens(keywords_of(query) + Seq::<Seq<char>>::empty()),
    }
}

/// Build the criteria a race validates against: keywords from the search
/// query and the enriched title, and the enriched year. No criteria at all
/// (no keywords, no year) yields `None`: nothing to validate.
pub fn build_validation(query: &str, enriched_title: Option<&String>, year: Option<u16>) -> (r:
    Option<TorrentValidation>)
    ensures
        match r {
            Some(v) => {
                &&& v.title_keywords.deep_view() == criteria_keywords(
                    query@,
                    match enriched_title {
                        Some(t) => Some(t@),
                        None => None,
                    },
                )
                &&& v.year == year
                &&& v.title_keywords@.len() > 0 || year is Some
            },
            None => criteria_keywords(
                query@,
                match enriched_title {
                    Some(t) => Some(t@),
                    None => None,
                },
            ).len() == 0 && year is None,
        },
{
    let own = TorrentValidation::extract_keywords(query);
    let merged = match enriched_title {
        Some(t) => {
            let extra = TorrentValidation::extract_keywords(t.as_str());
            merge_keywords(&own, &extra)
        },
        None => {
            let empty: Vec<String> = Vec::new();
            merge_keywords(&own, &empty)
        },
    };
    if merged.len() == 0 && year.is_none() {
        proof {
            assert(merged.deep_view().len() == merged@.len());
        }
        None
    } else {
        proof {
            assert(merged.deep_view().len() == merged@.len());
        }
        Some(TorrentValidation { title_keywords: merged, year })
    }
}

/// Is the token already present in the collected keyword list?
fn contains_token(out: &Vec<String>, t: &Vec<char>) -> (r: bool)
    ensures
        r == out.deep_view().contains(t@),
{
    let mut i: usize = 0;
    while i < out.len()
        invariant
            i <= out@.len(),
            forall|k: int| 0 <= k < i ==> out.deep_view()[k] != t@,
        decreases out@.len() - i,
    {
        let oc = chars_vec(out[i].as_str());
        if chars_eq(&oc, t) {
            proof {
                assert(out.deep_view()[i as int] == t@);
            }
            return true;
        }
        i += 1;
    }
    proof {
        if out.deep_view().contains(t@) {
            let k = choose|k: int| 0 <= k < out.deep_view().len() && out.deep_view()[k] == t@;
            assert(out.deep_view()[k] == t@);
        }
    }
    false
}

fn is_word_char_exec(c: char) -> (r: bool)
    ensures
        r == is_word_char(c),
{
    ('a' <= c && c <= 'z') || ('A' <= c && c <= 'Z') || ('0' <= c && c <= '9')
}

/// `run_len` of a suffix is settled by the word characters it starts with.
proof fn lemma_run_len_bound(s: Seq<char>, r: int)
    requires
        0 <= r <= s.len(),
        forall|k: int| 0 <= k < r ==> is_word_char(#[trigger] s[k]),
        r == s.len() || !is_word_char(s[r]),
    ensures
        run_len(s) == r,
    decreases s.len(),
{
    if s.len() == 0 || !is_word_char(s[0]) {
    } else {
        assert(forall|k: int| 0 <= k < r - 1 ==> is_word_char(#[trigger] s.drop_first()[k]));
        lemma_run_len_bound(s.drop_first(), r - 1);
    }
}

/// Split the query into its maximal runs of word characters.
fn tokenize(q: &Vec<char>) -> (r: Vec<Vec<char>>)
    ensures
        r.deep_view() == tokens(q@),
{
    let n = q.len();
    let mut r: Vec<Vec<char>> = Vec::new();
    let ghost mut done: Seq<Seq<char>> = seq![];
    let mut i: usize = 0;
    proof {
        assert(q@.skip(0) =~= q@);
        assert(done + tokens(q@) =~= tokens(q@));
        assert(r.deep_view() =~= done);
    }
    while i < n
        invariant
            n == q@.len(),
            i <= n,
            r.deep_view() == done,
            tokens(q@) == done + tokens(q@.skip(i as int)),
        decreases n - i,
    {
        if !is_word_char_exec(q[i]) {
            proof {
                assert(q@.skip(i as int).drop_first() =~= q@.skip(i as int + 1));
            }
            i += 1;
        } else {
            let start = i;
            let mut tok: Vec<char> = Vec::new();
            while i < n && is_word_char_exec(q[i])
                invariant
                    n == q@.len(),
                    start <= i <= n,
                    tok@ == q@.subrange(start as int, i as int),
                    forall|k: int| start <= k < i ==> is_word_char(#[trigger] q@[k]),
                    is_word_char(q@[start as int]),
                decreases n - i,
            {
                tok.push(q[i]);
                i += 1;
                proof {
                    assert(tok@ =~= q@.subrange(start as int, i as int));
                }
            }
            proof {
                let suf = q@.skip(start as int);
                assert(forall|k: int| 0 <= k < i - start ==> is_word_char(#[trigger] suf[k]));
                lemma_run_len_bound(suf, i - start);
                assert(suf.take(i - start) =~= q@.subrange(start as int, i as int));
                assert(suf.skip(i - start) =~= q@.skip(i as int));
                assert(tokens(q@.skip(start as int)) == seq![tok@] + tokens(q@.skip(i as int)));
                done = done.push(tok@);
            }
            r.push(tok);
            proof {
                assert(r.deep_view() =~~= done);
                assert(done.drop_last() + (seq![tok@] + tokens(q@.skip(i as int))) =~= done
                    + tokens(q@.skip(i as int)));
            }
        }
    }
    proof {
        assert(q@.skip(n as int) =~= Seq::<char>::empty());
        assert(tokens(q@) =~= done);
    }
    r
}

/// Should this lower-cased token be kept as a keyword?
fn keep_token_exec(t: &Vec<char>) -> (r: bool)
    ensures
        r == keep_token(t@),
{
    if t.len() < 3 {
        return false;
    }
    if is_stop_word_exec(t) {
        return false;
    }
    if is_year_token_exec(t) {
        return false;
    }
    true
}

fn is_stop_word_exec(t: &Vec<char>) -> (r: bool)
    ensures
        r == is_stop_word(t@),
{
    let w1 = vec!['t', 'h', 'e'];
    let w2 = vec!['a'];
    let w3 = vec!['a', 'n'];
    let w4 = vec!['a', 'n', 'd'];
    let w5 = vec!['o', 'r'];
    let w6 = vec!['o', 'f'];
    let w7 = vec!['i', 'n'];
    let w8 = vec!['o', 'n'];
    let w9 = vec!['a', 't'];
    let w10 = vec!['t', 'o'];
    let w11 = vec!['f', 'o', 'r'];
    proof {
        assert(w1@ =~= seq!['t', 'h', 'e']);
        assert(w2@ =~= seq!['a']);
        assert(w3@ =~= seq!['a', 'n']);
        assert(w4@ =~= seq!['a', 'n', 'd']);
        assert(w5@ =~= seq!['o', 'r']);
        assert(w6@ =~= seq!['o', 'f']);
        assert(w7@ =~= seq!['i', 'n']);
        assert(w8@ =~= seq!['o', 'n']);
        assert(w9@ =~= seq!['a', 't']);
        assert(w10@ =~= seq!['t', 'o']);
        assert(w11@ =~= seq!['f', 'o', 'r']);
    }
    chars_eq(t, &w1) || chars_eq(t, &w2) || chars_eq(t, &w3) || chars_eq(t, &w4) || chars_eq(
        t,
        &w5,
    ) || chars_eq(t, &w6) || chars_eq(t, &w7) || chars_eq(t, &w8) || chars_eq(t, &w9) || chars_eq(
        t,
        &w10,
    ) || chars_eq(t, &w11)
}

fn is_year_token_exec(t: &Vec<char>) -> (r: bool)
    ensures
        r == is_year_token(t@),
{
    if t.len() != 4 {
        return false;
    }
    let mut i: usize = 0;
    while i < t.len()
        invariant
            t@.len() == 4,
            i <= 4,
            forall|k: int| 0 <= k < i ==> '0' <= #[trigger] t@[k] && t@[k] <= '9',
        decreases t@.len() - i,
    {
        let c = t[i];
        if !('0' <= c && c <= '9') {
            return false;
        }
        i += 1;
    }
    true
}

/// Criteria with no keywords and no expected year accept every filename.
pub proof fn lemma_empty_criteria_accept_all(name: Seq<char>)
    ensures
        spec_matches(seq![], None, name),
{
}

/// A name passes exactly when some keyword occurs in the case-folded name
/// (or no keyword is configured) and the expected year's digits occur in the
/// name (or no year is configured); if either required part is missing, the
/// name is rejected.
pub proof fn lemma_matches_characterization(
    keywords: Seq<Seq<char>>,
    year: Option<u16>,
    name: Seq<char>,
)
    ensures
        spec_matches(keywords, year, name) <==> ((keywords.len() == 0 || exists|k: int|
            0 <= k < keywords.len() && contains_seq(lower(name), #[trigger] keywords[k])) && (
        year is None || contains_seq(name, dec_str(year->0 as nat)))),
{
}

} // verus!
