//! Season/episode keys parsed from release file names, and the ordering of a
//! season pack by those keys.
//!
//! Two patterns are recognised, the same ones the wider ecosystem uses:
//! `S01E02` (a season marker `s`/`S`, one or two digits, an episode marker
//! `e`/`E`, one to three digits) and `1x02` (one or two digits, `x`/`X`, one
//! to three digits). The first pattern is preferred over the second, the
//! leftmost occurrence wins, and digit runs are taken greedily. A name with
//! neither pattern sorts after every parseable one.
use vstd::prelude::*;

verus! {

use crate::media::VideoFile;
use vstd::multiset::Multiset;

broadcast use {vstd::seq_lib::group_to_multiset_ensures, vstd::multiset::group_multiset_axioms};

pub open spec fn is_digit(c: char) -> bool {
    '0' <= c && c <= '9'
}

/// The numeric value of a decimal digit character.
pub open spec fn digit_of(c: char) -> int {
    if c == '0' {
        0
    } else if c == '1' {
        1
    } else if c == '2' {
        2
    } else if c == '3' {
        3
    } else if c == '4' {
        4
    } else if c == '5' {
        5
    } else if c == '6' {
        6
    } else if c == '7' {
        7
    } else if c == '8' {
        8
    } else {
        9
    }
}

pub open spec fn is_s_char(c: char) -> bool {
    c == 'S' || c == 's'
}

pub open spec fn is_e_char(c: char) -> bool {
    c == 'E' || c == 'e'
}

pub open spec fn is_x_char(c: char) -> bool {
    c == 'X' || c == 'x'
}

/// The value of the greedy one-to-three digit run starting at `j` (meaningful
/// when `s[j]` is a digit).
pub open spec fn ep_val_at(s: Seq<char>, j: int) -> int {
    if j + 1 < s.len() && is_digit(s[j + 1]) {
        if j + 2 < s.len() && is_digit(s[j + 2]) {
            digit_of(s[j]) * 100 + digit_of(s[j + 1]) * 10 + digit_of(s[j + 2])
        } else {
            digit_of(s[j]) * 10 + digit_of(s[j + 1])
        }
    } else {
        digit_of(s[j])
    }
}

/// `S01E02` with a two-digit season at position `i`.
pub open spec fn sxex2_at(s: Seq<char>, i: int) -> bool {
    &&& 0 <= i
    &&& i + 4 < s.len()
    &&& is_s_char(s[i])
    &&& is_digit(s[i + 1])
    &&& is_digit(s[i + 2])
    &&& is_e_char(s[i + 3])
    &&& is_digit(s[i + 4])
}

/// `S1E2` with a one-digit season at position `i`.
pub open spec fn sxex1_at(s: Seq<char>, i: int) -> bool {
    &&& 0 <= i
    &&& i + 3 < s.len()
    &&& is_s_char(s[i])
    &&& is_digit(s[i + 1])
    &&& is_e_char(s[i + 2])
    &&& is_digit(s[i + 3])
}

pub open spec fn sxex_at(s: Seq<char>, i: int) -> bool {
    sxex2_at(s, i) || sxex1_at(s, i)
}

/// The (season, episode) captured at position `i`, two-digit season first.
pub open spec fn sxex_key_at(s: Seq<char>, i: int) -> (int, int) {
    if sxex2_at(s, i) {
        (digit_of(s[i + 1]) * 10 + digit_of(s[i + 2]), ep_val_at(s, i + 4))
    } else {
        (digit_of(s[i + 1]), ep_val_at(s, i + 3))
    }
}

/// `10x02` with a two-digit season at position `i`.
pub open spec fn nxm2_at(s: Seq<char>, i: int) -> bool {
    &&& 0 <= i
    &&& i + 3 < s.len()
    &&& is_digit(s[i])
    &&& is_digit(s[i + 1])
    &&& is_x_char(s[i + 2])
    &&& is_digit(s[i + 3])
}

/// `1x02` with a one-digit season at position `i`.
pub open spec fn nxm1_at(s: Seq<char>, i: int) -> bool {
    &&& 0 <= i
    &&& i + 2 < s.len()
    &&& is_digit(s[i])
    &&& is_x_char(s[i + 1])
    &&& is_digit(s[i + 2])
}

pub open spec fn nxm_at(s: Seq<char>, i: int) -> bool {
    nxm2_at(s, i) || nxm1_at(s, i)
}

pub open spec fn nxm_key_at(s: Seq<char>, i: int) -> (int, int) {
    if nxm2_at(s, i) {
        (digit_of(s[i]) * 10 + digit_of(s[i + 1]), ep_val_at(s, i + 3))
    } else {
        (digit_of(s[i]), ep_val_at(s, i + 2))
    }
}

/// The key at the leftmost `SxxEyy` occurrence at or after `i`, if any.
pub open spec fn scan_sxex(s: Seq<char>, i: int) -> Option<(int, int)>
    decreases s.len() - i,
{
    if i < 0 || i >= s.len() {
        None
    } else if sxex_at(s, i) {
        Some(sxex_key_at(s, i))
    } else {
        scan_sxex(s, i + 1)
    }
}

/// The key at the leftmost `NxM` occurrence at or after `i`, if any.
pub open spec fn scan_nxm(s: Seq<char>, i: int) -> Option<(int, int)>
    decreases s.len() - i,
{
    if i < 0 || i >= s.len() {
        None
    } else if nxm_at(s, i) {
        Some(nxm_key_at(s, i))
    } else {
        scan_nxm(s, i + 1)
    }
}

/// The sort key of a file name: the leftmost `SxxEyy` key, else the leftmost
/// `NxM` key, else the largest key so the file sorts last.
pub open spec fn spec_episode_key(s: Seq<char>) -> (int, int) {
    match scan_sxex(s, 0) {
        Some(k) => k,
        None => match scan_nxm(s, 0) {
            Some(k) => k,
            None => (0xffff_ffff, 0xffff_ffff),
        },
    }
}

/// Lexicographic order on (season, episode) keys.
pub open spec fn key_le(a: (int, int), b: (int, int)) -> bool {
    a.0 < b.0 || (a.0 == b.0 && a.1 <= b.1)
}

/// The files are in ascending key order.
pub open spec fn sorted_by_episode(files: Seq<VideoFile>) -> bool {
    forall|i: int, j: int|
        0 <= i < j < files.len() ==> key_le(
            #[trigger] spec_episode_key(files[i].name@),
            #[trigger] spec_episode_key(files[j].name@),
        )
}

pub(crate) fn is_digit_exec(c: char) -> (r: bool)
    ensures
        r == is_digit(c),
{
    '0' <= c && c <= '9'
}

pub(crate) fn digit_of_exec(c: char) -> (r: u32)
    requires
        is_digit(c),
    ensures
        r == digit_of(c),
        r <= 9,
{
    if c == '0' {
        0
    } else if c == '1' {
        1
    } else if c == '2' {
        2
    } else if c == '3' {
        3
    } else if c == '4' {
        4
    } else if c == '5' {
        5
    } else if c == '6' {
        6
    } else if c == '7' {
        7
    } else if c == '8' {
        8
    } else {
        9
    }
}

/// The greedy one-to-three digit episode number starting at `j`.
pub(crate) fn ep_val_exec(v: &Vec<char>, j: usize) -> (r: u32)
    requires
        j < v@.len(),
        is_digit(v@[j as int]),
    ensures
        r == ep_val_at(v@, j as int),
        r <= 999,
{
    let n = v.len();
    let d0 = digit_of_exec(v[j]);
    if n - j > 1 && is_digit_exec(v[j + 1]) {
        let d1 = digit_of_exec(v[j + 1]);
        if n - j > 2 && is_digit_exec(v[j + 2]) {
            let d2 = digit_of_exec(v[j + 2]);
            d0 * 100 + d1 * 10 + d2
        } else {
            d0 * 10 + d1
        }
    } else {
        d0
    }
}

/// The `SxxEyy` key at `i`, when the pattern is present there.
fn try_sxex_at(v: &Vec<char>, i: usize) -> (r: Option<(u32, u32)>)
    requires
        i < v@.len(),
    ensures
        match r {
            Some(k) => sxex_at(v@, i as int) && (k.0 as int, k.1 as int) == sxex_key_at(
                v@,
                i as int,
            ) && k.0 <= 99 && k.1 <= 999,
            None => !sxex_at(v@, i as int),
        },
{
    let n = v.len();
    let c = v[i];
    if !(c == 'S' || c == 's') {
        return None;
    }
    if n - i > 4 && is_digit_exec(v[i + 1]) && is_digit_exec(v[i + 2]) && (v[i + 3] == 'E' || v[i
        + 3] == 'e') && is_digit_exec(v[i + 4]) {
        let season = digit_of_exec(v[i + 1]) * 10 + digit_of_exec(v[i + 2]);
        let episode = ep_val_exec(v, i + 4);
        return Some((season, episode));
    }
    if n - i > 3 && is_digit_exec(v[i + 1]) && (v[i + 2] == 'E' || v[i + 2] == 'e')
        && is_digit_exec(v[i + 3]) {
        let season = digit_of_exec(v[i + 1]);
        let episode = ep_val_exec(v, i + 3);
        return Some((season, episode));
    }
    None
}

/// The `NxM` key at `i`, when the pattern is present there.
fn try_nxm_at(v: &Vec<char>, i: usize) -> (r: Option<(u32, u32)>)
    requires
        i < v@.len(),
    ensures
        match r {
            Some(k) => nxm_at(v@, i as int) && (k.0 as int, k.1 as int) == nxm_key_at(
                v@,
                i as int,
            ) && k.0 <= 99 && k.1 <= 999,
            None => !nxm_at(v@, i as int),
        },
{
    let n = v.len();
    if !is_digit_exec(v[i]) {
        return None;
    }
    if n - i > 3 && is_digit_exec(v[i + 1]) && (v[i + 2] == 'X' || v[i + 2] == 'x')
        && is_digit_exec(v[i + 3]) {
        let season = digit_of_exec(v[i]) * 10 + digit_of_exec(v[i + 1]);
        let episode = ep_val_exec(v, i + 3);
        return Some((season, episode));
    }
    if n - i > 2 && (v[i + 1] == 'X' || v[i + 1] == 'x') && is_digit_exec(v[i + 2]) {
        let season = digit_of_exec(v[i]);
        let episode = ep_val_exec(v, i + 2);
        return Some((season, episode));
    }
    None
}

/// The leftmost `SxxEyy` key in `v`, if any.
pub(crate) fn scan_sxex_exec(v: &Vec<char>) -> (r: Option<(u32, u32)>)
    ensures
        match r {
            Some(k) => scan_sxex(v@, 0) == Some((k.0 as int, k.1 as int)) && k.0 <= 99 && k.1
                <= 999,
            None => scan_sxex(v@, 0) is None,
        },
{
    let n = v.len();
    let mut i: usize = 0;
    while i < n
        invariant
            n == v@.len(),
            i <= n,
            scan_sxex(v@, 0) == scan_sxex(v@, i as int),
        decreases n - i,
    {
        if let Some(k) = try_sxex_at(v, i) {
            return Some(k);
        }
        i += 1;
    }
    None
}

/// The leftmost `NxM` key in `v`, if any.
pub(crate) fn scan_nxm_exec(v: &Vec<char>) -> (r: Option<(u32, u32)>)
    ensures
        match r {
            Some(k) => scan_nxm(v@, 0) == Some((k.0 as int, k.1 as int)) && k.0 <= 99 && k.1 <= 999,
            None => scan_nxm(v@, 0) is None,
        },
{
    let n = v.len();
    let mut i: usize = 0;
    while i < n
        invariant
            n == v@.len(),
            i <= n,
            scan_nxm(v@, 0) == scan_nxm(v@, i as int),
        decreases n - i,
    {
        if let Some(k) = try_nxm_at(v, i) {
            return Some(k);
        }
        i += 1;
    }
    None
}

impl VideoFile {
    /// Season and episode parsed from the file name, for ordering a season
    /// pack; a file with no recognisable pattern keys as the maximum.
    pub fn episode_sort_key(&self) -> (r: (u32, u32))
        ensures
            (r.0 as int, r.1 as int) == spec_episode_key(self.name@),
    {
        let v = crate::text::chars_vec(self.name.as_str());
        if let Some(k) = scan_sxex_exec(&v) {
            return k;
        }
        if let Some(k) = scan_nxm_exec(&v) {
            return k;
        }
        (u32::MAX, u32::MAX)
    }
}

/// Is key `a` at most key `b`, lexicographically?
fn key_le_exec(a: (u32, u32), b: (u32, u32)) -> (r: bool)
    ensures
        r == key_le((a.0 as int, a.1 as int), (b.0 as int, b.1 as int)),
{
    a.0 < b.0 || (a.0 == b.0 && a.1 <= b.1)
}

/// The first position in `out` whose key exceeds `xk`, scanning in order.
/// The files of `files` whose sort key is exactly `k`, in order.
pub open spec fn with_key(files: Seq<VideoFile>, k: (int, int)) -> Seq<VideoFile> {
    files.filter(|f: VideoFile| spec_episode_key(f.name@) == k)
}

/// `with_key` distributes over concatenation.
proof fn lemma_with_key_add(a: Seq<VideoFile>, b: Seq<VideoFile>, k: (int, int))
    ensures
        with_key(a + b, k) == with_key(a, k) + with_key(b, k),
    decreases b.len(),
{
    reveal(Seq::filter);
    if b.len() == 0 {
        assert(a + b =~= a);
        assert(with_key(b, k) =~= Seq::<VideoFile>::empty());
        assert(with_key(a, k) + with_key(b, k) =~= with_key(a, k));
    } else {
        assert((a + b).drop_last() =~= a + b.drop_last());
        assert((a + b).last() == b.last());
        lemma_with_key_add(a, b.drop_last(), k);
        if spec_episode_key(b.last().name@) == k {
            assert((with_key(a, k) + with_key(b.drop_last(), k)).push(b.last()) =~= with_key(a, k)
                + with_key(b.drop_last(), k).push(b.last()));
        }
    }
}

/// A one-file sequence filters to itself or to nothing.
proof fn lemma_with_key_one(x: VideoFile, k: (int, int))
    ensures
        with_key(seq![x], k) == if spec_episode_key(x.name@) == k {
            seq![x]
        } else {
            Seq::<VideoFile>::empty()
        },
{
    reveal_with_fuel(Seq::filter, 3);
    assert(seq![x].drop_last() =~= Seq::<VideoFile>::empty());
    if spec_episode_key(x.name@) == k {
        assert(Seq::<VideoFile>::empty().push(x) =~= seq![x]);
    }
}

/// Nothing is kept when no file carries the key.
proof fn lemma_with_key_none(s: Seq<VideoFile>, k: (int, int))
    requires
        forall|i: int| 0 <= i < s.len() ==> spec_episode_key(#[trigger] s[i].name@) != k,
    ensures
        with_key(s, k) == Seq::<VideoFile>::empty(),
    decreases s.len(),
{
    reveal(Seq::filter);
    if s.len() > 0 {
        lemma_with_key_none(s.drop_last(), k);
    } else {
        assert(s =~= Seq::<VideoFile>::empty());
    }
}

/// The first position in `out` whose key is at or above `xk`: inserting
/// there places the new file before every file of equal key.
fn find_insert_pos(out: &Vec<VideoFile>, xk: (u32, u32)) -> (p: usize)
    ensures
        p <= out@.len(),
        forall|j: int|
            0 <= j < p ==> !key_le(
                (xk.0 as int, xk.1 as int),
                #[trigger] spec_episode_key(out@[j].name@),
            ),
        p < out@.len() ==> key_le(
            (xk.0 as int, xk.1 as int),
            spec_episode_key(out@[p as int].name@),
        ),
{
    let mut p: usize = 0;
    while p < out.len()
        invariant
            p <= out@.len(),
            forall|j: int|
                0 <= j < p ==> !key_le(
                    (xk.0 as int, xk.1 as int),
                    #[trigger] spec_episode_key(out@[j].name@),
                ),
        decreases out@.len() - p,
    {
        let ok = out[p].episode_sort_key();
        if key_le_exec(xk, ok) {
            return p;
        }
        p += 1;
    }
    p
}

/// Sort video files in ascending (season, episode) order, stably: files of
/// equal key keep their input order, and files with no parseable episode
/// sort after all parseable ones. The result holds exactly the files given.
pub fn sort_episodes(files: &mut Vec<VideoFile>)
    ensures
        final(files)@.to_multiset() == old(files)@.to_multiset(),
        sorted_by_episode(final(files)@),
        forall|k: (int, int)| #[trigger] with_key(final(files)@, k) == with_key(old(files)@, k),
{
    let mut out: Vec<VideoFile> = Vec::new();
    proof {
        assert(files@ =~= old(files)@.take(files@.len() as int));
        assert(out@ =~= old(files)@.skip(files@.len() as int));
    }
    while files.len() > 0
        invariant
            files@.to_multiset().add(out@.to_multiset()) == old(files)@.to_multiset(),
            sorted_by_episode(out@),
            files@.len() <= old(files)@.len(),
            files@ == old(files)@.take(files@.len() as int),
            forall|k: (int, int)| #[trigger] with_key(out@, k) == with_key(
                old(files)@.skip(files@.len() as int),
                k,
            ),
        decreases files@.len(),
    {
        let ghost all = old(files)@;
        let ghost pre = files@;
        let ghost m = pre.len() as int;
        let x = files.pop().unwrap();
        proof {
            assert(pre.drop_last() =~= pre.remove(pre.len() - 1));
            assert(pre.remove(pre.len() - 1).to_multiset() =~= pre.to_multiset().remove(
                pre.last(),
            ));
            assert(pre.contains(pre.last()));
            assert(pre.to_multiset().count(pre.last()) > 0);
            assert(files@.to_multiset().insert(x) =~= pre.to_multiset());
            assert(files@.to_multiset().insert(x).add(out@.to_multiset()) =~= all.to_multiset());
            assert(pre == all.take(m));
            assert(1 <= m <= all.len());
            assert(x == pre.last());
            assert(pre.last() == all.take(m)[m - 1]);
            assert(x == all[m - 1]);
            assert(files@ == pre.drop_last());
            assert(files@ =~= all.take(m - 1));
        }
        let xk = x.episode_sort_key();
        let p = find_insert_pos(&out, xk);
        let ghost out_pre = out@;
        out.insert(p, x);
        proof {
            assert(out@.remove(p as int) =~= out_pre);
            assert(out@.remove(p as int).to_multiset() =~= out@.to_multiset().remove(x));
            assert(out@.to_multiset() =~= out_pre.to_multiset().insert(x));
            assert(files@.to_multiset().add(out@.to_multiset()) =~= all.to_multiset());
            assert forall|i: int, j: int| 0 <= i < j < out@.len() implies key_le(
                #[trigger] spec_episode_key(out@[i].name@),
                #[trigger] spec_episode_key(out@[j].name@),
            ) by {
                if j < p {
                } else if i < p && j == p {
                    assert(!key_le(
                        spec_episode_key(x.name@),
                        spec_episode_key(out_pre[i].name@),
                    ));
                } else if i < p && j > p {
                    assert(out@[j] == out_pre[j - 1]);
                } else if i == p {
                    assert(out@[j] == out_pre[j - 1]);
                    assert(key_le(
                        spec_episode_key(x.name@),
                        spec_episode_key(out_pre[p as int].name@),
                    ));
                } else {
                    assert(out@[i] == out_pre[i - 1]);
                    assert(out@[j] == out_pre[j - 1]);
                }
            }
            // equal keys keep their order: the new file stands before every
            // equal-keyed file already placed, which are the later ones
            assert(out@ =~= out_pre.take(p as int) + (seq![x] + out_pre.skip(p as int)));
            assert(out_pre =~= out_pre.take(p as int) + out_pre.skip(p as int));
            assert(all.skip(m - 1) =~= seq![x] + all.skip(m));
            assert forall|k: (int, int)| #[trigger] with_key(out@, k) == with_key(
                all.skip(m - 1),
                k,
            ) by {
                lemma_with_key_add(out_pre.take(p as int), seq![x] + out_pre.skip(p as int), k);
                lemma_with_key_add(seq![x], out_pre.skip(p as int), k);
                lemma_with_key_add(out_pre.take(p as int), out_pre.skip(p as int), k);
                lemma_with_key_one(x, k);
                lemma_with_key_add(seq![x], all.skip(m), k);
                if spec_episode_key(x.name@) == k {
                    assert forall|i: int|
                        0 <= i < out_pre.take(p as int).len() implies spec_episode_key(
                        #[trigger] out_pre.take(p as int)[i].name@,
                    ) != k by {
                        assert(out_pre.take(p as int)[i] == out_pre[i]);
                        assert(!key_le(
                            spec_episode_key(x.name@),
                            spec_episode_key(out_pre[i].name@),
                        ));
                    }
                    lemma_with_key_none(out_pre.take(p as int), k);
                }
                assert(with_key(out_pre, k) == with_key(all.skip(m), k));
            }
        }
    }
    proof {
        assert(files@.to_multiset() =~= Multiset::<VideoFile>::empty());
        assert(files@.to_multiset().add(out@.to_multiset()) =~= out@.to_multiset());
        assert(old(files)@.skip(0) =~= old(files)@);
    }
    *files = out;
}

} // verus!
