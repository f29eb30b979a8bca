//! Formatting helpers for the presentation layer: masked secrets and
//! human-readable byte counts.
use vstd::prelude::*;

verus! {

use crate::text::{
    append_chars, chars_vec, dec_str, digit_char, round_half_even, rounded_div_half_even,
    string_from_chars, u64_to_chars,
};

pub const KB: u64 = 1024;

pub const MB: u64 = 1024 * 1024;

pub const GB: u64 = 1024 * 1024 * 1024;

/// A secret shown on screen: six or fewer characters become that many
/// asterisks; a longer one shows its first two and last two characters
/// around an ellipsis.
pub open spec fn masked(s: Seq<char>) -> Seq<char> {
    if s.len() <= 6 {
        Seq::new(s.len(), |i: int| '*')
    } else {
        s.take(2) + "..."@ + s.skip(s.len() - 2)
    }
}

/// Mask a secret for display.
pub fn mask_secret(s: &str) -> (r: String)
    ensures
        r@ == masked(s@),
{
    let v = chars_vec(s);
    let n = v.len();
    if n <= 6 {
        let mut out: Vec<char> = Vec::new();
        let mut i: usize = 0;
        while i < n
            invariant
                i <= n,
                n == v@.len(),
                out@.len() == i,
                forall|k: int| 0 <= k < i ==> out@[k] == '*',
            decreases n - i,
        {
            out.push('*');
            i += 1;
        }
        proof {
            assert(out@ =~= masked(s@));
        }
        string_from_chars(&out)
    } else {
        let mut out: Vec<char> = Vec::new();
        out.push(v[0]);
        out.push(v[1]);
        append_chars(&mut out, &chars_vec("..."));
        out.push(v[n - 2]);
        out.push(v[n - 1]);
        proof {
            assert(out@ =~= masked(s@));
        }
        string_from_chars(&out)
    }
}

/// `bytes * 100 / GB`, rounded to the nearest with ties to even.
pub open spec fn gb_hundredths(b: int) -> int {
    round_half_even(b * 100, GB as int)
}

/// `bytes * 10 / MB`, rounded to the nearest with ties to even.
pub open spec fn mb_tenths(b: int) -> int {
    round_half_even(b * 10, MB as int)
}

/// `bytes / KB`, rounded to the nearest with ties to even.
pub open spec fn kb_whole(b: int) -> int {
    round_half_even(b, KB as int)
}

/// A byte count labelled in the largest fitting unit: two-decimal gibibytes,
/// one-decimal mebibytes, whole kibibytes, or plain bytes. Figures are
/// rounded to the nearest, halves to the even neighbour (so two and a half
/// kibibytes show as `2 KB`), the way a formatter renders exact halves.
pub open spec fn bytes_label(b: u64) -> Seq<char> {
    if b >= GB {
        let q = gb_hundredths(b as int);
        dec_str((q / 100) as nat) + "."@ + seq![digit_char(q % 100 / 10), digit_char(q % 10)]
            + " GB"@
    } else if b >= MB {
        let q = mb_tenths(b as int);
        dec_str((q / 10) as nat) + "."@ + seq![digit_char(q % 10)] + " MB"@
    } else if b >= KB {
        dec_str(kb_whole(b as int) as nat) + " KB"@
    } else {
        dec_str(b as nat) + " B"@
    }
}

/// Format a byte count for display.
pub fn format_bytes(bytes: u64) -> (r: String)
    ensures
        r@ == bytes_label(bytes),
{
    if bytes >= GB {
        let q = rounded_div_half_even((bytes as u128) * 100, GB as u128);
        let whole = (q / 100) as u64;
        let d1 = ((q % 100) / 10) as u64;
        let d2 = (q % 10) as u64;
        let mut v = u64_to_chars(whole);
        append_chars(&mut v, &chars_vec("."));
        let mut frac: Vec<char> = Vec::new();
        frac.push(digit_char_exec(d1));
        frac.push(digit_char_exec(d2));
        proof {
            assert(frac@ =~= seq![
                digit_char(gb_hundredths(bytes as int) % 100 / 10),
                digit_char(gb_hundredths(bytes as int) % 10),
            ]);
        }
        append_chars(&mut v, &frac);
        append_chars(&mut v, &chars_vec(" GB"));
        string_from_chars(&v)
    } else if bytes >= MB {
        let q = rounded_div_half_even((bytes as u128) * 10, MB as u128);
        let whole = (q / 10) as u64;
        let d1 = (q % 10) as u64;
        let mut v = u64_to_chars(whole);
        append_chars(&mut v, &chars_vec("."));
        let mut frac: Vec<char> = Vec::new();
        frac.push(digit_char_exec(d1));
        proof {
            assert(frac@ =~= seq![digit_char(mb_tenths(bytes as int) % 10)]);
        }
        append_chars(&mut v, &frac);
        append_chars(&mut v, &chars_vec(" MB"));
        string_from_chars(&v)
    } else if bytes >= KB {
        let q = rounded_div_half_even(bytes as u128, KB as u128) as u64;
        let mut v = u64_to_chars(q);
        append_chars(&mut v, &chars_vec(" KB"));
        string_from_chars(&v)
    } else {
        let mut v = u64_to_chars(bytes);
        append_chars(&mut v, &chars_vec(" B"));
        string_from_chars(&v)
    }
}

fn digit_char_exec(d: u64) -> (c: char)
    requires
        d <= 9,
    ensures
        c == digit_char(d as int),
{
    ((48 + d) as u8) as char
}

} // verus!
