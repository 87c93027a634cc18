//! Verified character-level string utilities: substring search, suffix tests,
//! decimal rendering and parsing, splitting and trimming.
//!
//! All contracts are stated over the `Seq<char>` views of `&str` and `String`.

use vstd::prelude::*;

verus! {

/// Relies on std's `String::push`: appends one character at the end.
pub assume_specification[ String::push ](s: &mut String, c: char)
    ensures
        final(s)@ == old(s)@.push(c),
;

/// True when `pat` occurs in `s` starting exactly at index `i`.
pub open spec fn matches_at(s: Seq<char>, pat: Seq<char>, i: int) -> bool {
    0 <= i && i + pat.len() <= s.len() && s.subrange(i, i + pat.len()) == pat
}

/// Index of the first occurrence of `pat` in `s` at or after `from`,
/// or `None` when there is none.
pub open spec fn first_match_from(s: Seq<char>, pat: Seq<char>, from: int) -> Option<int>
    decreases s.len() - from,
{
    if from < 0 || from + pat.len() > s.len() {
        None
    } else if pat.len() == 0 {
        Some(from)
    } else if s.subrange(from, from + pat.len()) == pat {
        Some(from)
    } else {
        first_match_from(s, pat, from + 1)
    }
}

pub proof fn lemma_first_match_props(s: Seq<char>, pat: Seq<char>, from: int)
    requires
        0 <= from,
    ensures
        first_match_from(s, pat, from) matches Some(i) ==> from <= i && matches_at(s, pat, i),
        first_match_from(s, pat, from) is None ==> forall|j: int|
            from <= j ==> !matches_at(s, pat, j),
    decreases s.len() - from,
{
    if from + pat.len() > s.len() {
        assert forall|j: int| from <= j implies !matches_at(s, pat, j) by {}
    } else if pat.len() == 0 {
        assert(s.subrange(from, from + pat.len()) =~= pat);
    } else if s.subrange(from, from + pat.len()) == pat {
    } else {
        lemma_first_match_props(s, pat, from + 1);
        if first_match_from(s, pat, from + 1) is None {
            assert forall|j: int| from <= j implies !matches_at(s, pat, j) by {
                if j == from {
                    assert(!matches_at(s, pat, from));
                }
            }
        }
    }
}

/// Compares two string slices character by character.
pub fn eq_str(a: &str, b: &str) -> (r: bool)
    ensures
        r == (a@ == b@),
{
    let alen = a.unicode_len();
    let blen = b.unicode_len();
    if alen != blen {
        assert(a@.len() != b@.len());
        return false;
    }
    let mut i: usize = 0;
    while i < alen
        invariant
            alen == a@.len(),
            alen == b@.len(),
            0 <= i <= alen,
            forall|k: int| 0 <= k < i ==> a@[k] == b@[k],
        decreases alen - i,
    {
        if a.get_char(i) != b.get_char(i) {
            assert(a@ != b@);
            return false;
        }
        i += 1;
    }
    assert(a@ =~= b@);
    true
}

/// True when `suffix` is a suffix of `s`.
pub open spec fn spec_ends_with(s: Seq<char>, suffix: Seq<char>) -> bool {
    s.len() >= suffix.len() && s.subrange(s.len() - suffix.len(), s.len() as int) == suffix
}

pub fn ends_with_str(s: &str, suffix: &str) -> (r: bool)
    ensures
        r == spec_ends_with(s@, suffix@),
{
    let slen = s.unicode_len();
    let plen = suffix.unicode_len();
    if plen > slen {
        return false;
    }
    let start = slen - plen;
    let tail = s.substring_char(start, slen);
    let r = eq_str(tail, suffix);
    assert(tail@ == s@.subrange(s@.len() - suffix@.len(), s@.len() as int));
    r
}

/// Checks whether `pat` occurs at position `i` of `s`.
fn check_match_at(s: &str, pat: &str, i: usize) -> (r: bool)
    requires
        i + pat@.len() <= s@.len(),
    ensures
        r == matches_at(s@, pat@, i as int),
{
    let slen = s.unicode_len();
    let plen = pat.unicode_len();
    let piece = s.substring_char(i, i + plen);
    let r = eq_str(piece, pat);
    assert(piece@ == s@.subrange(i as int, i + pat@.len()));
    r
}

/// First occurrence of `pat` in `s` at or after `from`, as an index in characters.
pub fn find_from(s: &str, pat: &str, from: usize) -> (r: Option<usize>)
    requires
        pat@.len() > 0,
    ensures
        r matches Some(i) ==> first_match_from(s@, pat@, from as int) == Some(i as int),
        r is None ==> first_match_from(s@, pat@, from as int) is None,
{
    let slen = s.unicode_len();
    let plen = pat.unicode_len();
    let mut j = from;
    loop
        invariant
            slen == s@.len(),
            plen == pat@.len(),
            plen > 0,
            from <= j,
            first_match_from(s@, pat@, from as int) == first_match_from(s@, pat@, j as int),
        decreases slen + 1 - j,
    {
        if j > slen || plen > slen - j {
            assert(first_match_from(s@, pat@, j as int) is None);
            return None;
        }
        if check_match_at(s, pat, j) {
            assert(first_match_from(s@, pat@, j as int) == Some(j as int));
            return Some(j);
        }
        assert(first_match_from(s@, pat@, j as int) == first_match_from(s@, pat@, j + 1));
        j += 1;
    }
}

/// The decimal digit character for a value below ten.
pub open spec fn dec_digit(v: int) -> char {
    if v == 0 {
        '0'
    } else if v == 1 {
        '1'
    } else if v == 2 {
        '2'
    } else if v == 3 {
        '3'
    } else if v == 4 {
        '4'
    } else if v == 5 {
        '5'
    } else if v == 6 {
        '6'
    } else if v == 7 {
        '7'
    } else if v == 8 {
        '8'
    } else {
        '9'
    }
}

/// The usual decimal rendering of a natural number, without sign or padding.
pub open spec fn spec_uint_str(n: nat) -> Seq<char>
    decreases n,
{
    if n < 10 {
        seq![dec_digit(n as int)]
    } else {
        spec_uint_str(n / 10).push(dec_digit((n % 10) as int))
    }
}

pub fn u64_to_string(n: u64) -> (r: String)
    ensures
        r@ == spec_uint_str(n as nat),
    decreases n,
{
    let digit = (n % 10) as u8;
    let c: char = if digit == 0 {
        '0'
    } else if digit == 1 {
        '1'
    } else if digit == 2 {
        '2'
    } else if digit == 3 {
        '3'
    } else if digit == 4 {
        '4'
    } else if digit == 5 {
        '5'
    } else if digit == 6 {
        '6'
    } else if digit == 7 {
        '7'
    } else if digit == 8 {
        '8'
    } else {
        '9'
    };
    assert(c == dec_digit((n % 10) as int));
    if n < 10 {
        let mut s = String::new();
        s.push(c);
        assert(s@ =~= spec_uint_str(n as nat));
        s
    } else {
        let mut s = u64_to_string(n / 10);
        s.push(c);
        s
    }
}

pub fn u32_to_string(n: u32) -> (r: String)
    ensures
        r@ == spec_uint_str(n as nat),
{
    u64_to_string(n as u64)
}

/// True for the ten ASCII digit characters.
pub open spec fn is_digit_char(c: char) -> bool {
    48 <= c as int <= 57
}

pub open spec fn all_digits(s: Seq<char>) -> bool {
    forall|i: int| 0 <= i < s.len() ==> is_digit_char(#[trigger] s[i])
}

/// The value of a digit string, most significant digit first.
pub open spec fn digits_val(s: Seq<char>) -> int
    decreases s.len(),
{
    if s.len() == 0 {
        0
    } else {
        digits_val(s.drop_last()) * 10 + (s.last() as int - 48)
    }
}

pub proof fn lemma_digits_val_nonneg(s: Seq<char>)
    requires
        all_digits(s),
    ensures
        digits_val(s) >= 0,
    decreases s.len(),
{
    if s.len() > 0 {
        assert(all_digits(s.drop_last())) by {
            assert(forall|i: int|
                0 <= i < s.drop_last().len() ==> s.drop_last()[i] == #[trigger] s[i]);
        }
        lemma_digits_val_nonneg(s.drop_last());
    }
}

proof fn lemma_digits_val_prefix_le(s: Seq<char>, n: int)
    requires
        all_digits(s),
        0 <= n <= s.len(),
    ensures
        digits_val(s.take(n)) <= digits_val(s),
    decreases s.len() - n,
{
    assert(all_digits(s.take(n))) by {
        assert(forall|i: int| 0 <= i < n ==> s.take(n)[i] == #[trigger] s[i]);
    }
    if n == s.len() {
        assert(s.take(n) =~= s);
    } else {
        lemma_digits_val_prefix_le(s, n + 1);
        let t = s.take(n + 1);
        assert(t.drop_last() =~= s.take(n));
        assert(digits_val(t) == digits_val(s.take(n)) * 10 + (s[n] as int - 48));
        lemma_digits_val_nonneg(s.take(n));
        assert(digits_val(s.take(n)) <= digits_val(s.take(n)) * 10 + (s[n] as int - 48));
    }
}

/// Parses an unsigned decimal number; `None` when the string is empty, holds a
/// non-digit, or the value does not fit in a `u64`.
pub fn parse_u64(s: &str) -> (r: Option<u64>)
    ensures
        r matches Some(v) ==> s@.len() > 0 && all_digits(s@) && digits_val(s@) == v as int,
        r is None ==> s@.len() == 0 || !all_digits(s@) || digits_val(s@) > u64::MAX,
{
    let slen = s.unicode_len();
    if slen == 0 {
        return None;
    }
    let mut acc: u64 = 0;
    let mut i: usize = 0;
    while i < slen
        invariant
            slen == s@.len(),
            0 <= i <= slen,
            all_digits(s@.take(i as int)),
            acc as int == digits_val(s@.take(i as int)),
        decreases slen - i,
    {
        let c = s.get_char(i);
        let code = c as u32;
        if code < 48 || code > 57 {
            assert(!is_digit_char(s@[i as int]));
            assert(!all_digits(s@));
            return None;
        }
        let d = (code - 48) as u64;
        assert(s@.take(i + 1).drop_last() =~= s@.take(i as int));
        assert(all_digits(s@.take(i + 1)));
        if acc > (u64::MAX - d) / 10 {
            proof {
                assert(digits_val(s@.take(i + 1)) > u64::MAX);
                if all_digits(s@) {
                    lemma_digits_val_prefix_le(s@, i + 1);
                    assert(digits_val(s@) > u64::MAX);
                }
            }
            return None;
        }
        acc = acc * 10 + d;
        i += 1;
    }
    assert(s@.take(slen as int) =~= s@);
    Some(acc)
}

/// Parses an unsigned decimal number that must fit in a `u32`.
pub fn parse_u32(s: &str) -> (r: Option<u32>)
    ensures
        r matches Some(v) ==> s@.len() > 0 && all_digits(s@) && digits_val(s@) == v as int,
        r is None ==> s@.len() == 0 || !all_digits(s@) || digits_val(s@) > u32::MAX,
{
    match parse_u64(s) {
        Some(v) => if v <= u32::MAX as u64 {
            Some(v as u32)
        } else {
            None
        },
        None => None,
    }
}

/// Accepted shape for a decimal coordinate: an optional sign, one or more
/// digits, and optionally a point followed by one or more digits. This is a
/// deliberate convention: machine floats stay outside the library, so the
/// coordinate grammar is the plain decimal form the hooked client emits;
/// exotic forms (exponents, infinities) are treated as unparseable.
pub open spec fn is_decimal(s: Seq<char>) -> bool {
    let body = if s.len() > 0 && (s[0] == '-' || s[0] == '+') {
        s.subrange(1, s.len() as int)
    } else {
        s
    };
    match first_match_from(body, seq!['.'], 0) {
        Some(p) => {
            let ip = body.take(p);
            let fp = body.subrange(p + 1, body.len() as int);
            ip.len() > 0 && fp.len() > 0 && all_digits(ip) && all_digits(fp)
        },
        None => body.len() > 0 && all_digits(body),
    }
}

fn all_digits_check(s: &str, from: usize, to: usize) -> (r: bool)
    requires
        from <= to <= s@.len(),
    ensures
        r == all_digits(s@.subrange(from as int, to as int)),
{
    let piece = s.substring_char(from, to);
    let plen = piece.unicode_len();
    let mut i: usize = 0;
    while i < plen
        invariant
            piece@ == s@.subrange(from as int, to as int),
            plen == piece@.len(),
            0 <= i <= plen,
            forall|k: int| 0 <= k < i ==> is_digit_char(#[trigger] piece@[k]),
        decreases plen - i,
    {
        let code = piece.get_char(i) as u32;
        if code < 48 || code > 57 {
            assert(!is_digit_char(piece@[i as int]));
            return false;
        }
        i += 1;
    }
    true
}

/// Checks that a string has the accepted decimal-number shape.
pub fn is_decimal_str(s: &str) -> (r: bool)
    ensures
        r == is_decimal(s@),
{
    let slen = s.unicode_len();
    let dot = ".";
    proof {
        reveal_strlit(".");
        assert(dot@ =~= seq!['.']);
    }
    let mut start: usize = 0;
    if slen > 0 {
        let c = s.get_char(0);
        if c == '-' || c == '+' {
            start = 1;
        }
    }
    let body = s.substring_char(start, slen);
    let blen = body.unicode_len();
    proof {
        if start == 1 {
            assert(body@ =~= s@.subrange(1, s@.len() as int));
        } else {
            assert(body@ =~= s@);
        }
    }
    match find_from(body, dot, 0) {
        Some(p) => {
            proof {
                lemma_first_match_props(body@, dot@, 0);
            }
            let ip_ok = if p > 0 {
                all_digits_check(body, 0, p)
            } else {
                false
            };
            let fp_ok = if p < blen && blen - p > 1 {
                all_digits_check(body, p + 1, blen)
            } else {
                false
            };
            proof {
                assert(body@.take(p as int) =~= body@.subrange(0, p as int));
            }
            ip_ok && fp_ok
        },
        None => {
            if blen == 0 {
                false
            } else {
                let r = all_digits_check(body, 0, blen);
                proof {
                    assert(body@.subrange(0, blen as int) =~= body@);
                }
                r
            }
        },
    }
}

/// ASCII whitespace, as removed by trimming.
pub open spec fn is_space_char(c: char) -> bool {
    c == ' ' || c == '\t' || c == '\n' || c == '\r'
}

/// The trimmed span of `s`: everything between the first and the last
/// non-whitespace character.
pub open spec fn spec_trim(s: Seq<char>) -> Seq<char>
    decreases s.len(),
{
    if s.len() == 0 {
        s
    } else if is_space_char(s[0]) {
        spec_trim(s.subrange(1, s.len() as int))
    } else if is_space_char(s.last()) {
        spec_trim(s.take(s.len() - 1))
    } else {
        s
    }
}

#[verifier::rlimit(50)]
pub fn trim_str(s: &str) -> (r: String)
    ensures
        r@ == spec_trim(s@),
{
    let slen = s.unicode_len();
    let mut lo: usize = 0;
    let mut hi: usize = slen;
    proof {
        assert(s@.subrange(0, slen as int) =~= s@);
    }
    while lo < hi
        invariant
            slen == s@.len(),
            0 <= lo <= hi <= slen,
            spec_trim(s@) == spec_trim(s@.subrange(lo as int, hi as int)),
        ensures
            lo == hi || !is_space_char(s@[lo as int]),
        decreases hi - lo,
    {
        let c = s.get_char(lo);
        if !(c == ' ' || c == '\t' || c == '\n' || c == '\r') {
            break;
        }
        proof {
            let cur = s@.subrange(lo as int, hi as int);
            assert(cur.subrange(1, cur.len() as int) =~= s@.subrange(lo + 1, hi as int));
        }
        lo += 1;
    }
    while lo < hi
        invariant
            slen == s@.len(),
            0 <= lo <= hi <= slen,
            lo < hi ==> !is_space_char(s@[lo as int]),
            spec_trim(s@) == spec_trim(s@.subrange(lo as int, hi as int)),
        ensures
            lo == hi || (!is_space_char(s@[lo as int]) && !is_space_char(s@[hi - 1])),
        decreases hi - lo,
    {
        let c = s.get_char(hi - 1);
        if !(c == ' ' || c == '\t' || c == '\n' || c == '\r') {
            break;
        }
        proof {
            let cur = s@.subrange(lo as int, hi as int);
            assert(cur.take(cur.len() - 1) =~= s@.subrange(lo as int, hi - 1));
        }
        hi -= 1;
    }
    let piece = s.substring_char(lo, hi);
    proof {
        let cur = s@.subrange(lo as int, hi as int);
        if cur.len() > 0 {
            assert(cur[0] == s@[lo as int]);
            assert(cur.last() == s@[hi - 1]);
        }
        assert(spec_trim(cur) == cur);
    }
    String::from_str(piece)
}

/// The pieces of `s` cut at every occurrence of `sep`, in order; a string
/// without the separator is one piece.
pub open spec fn spec_split(s: Seq<char>, sep: Seq<char>) -> Seq<Seq<char>>
    decreases s.len(),
{
    if sep.len() == 0 {
        seq![s]
    } else {
        match first_match_from(s, sep, 0) {
            None => seq![s],
            Some(i) => if 0 <= i && i + sep.len() <= s.len() {
                seq![s.take(i)] + spec_split(s.subrange(i + sep.len(), s.len() as int), sep)
            } else {
                seq![s]
            },
        }
    }
}

pub fn split_str(s: &str, sep: &str) -> (r: Vec<String>)
    requires
        sep@.len() > 0,
    ensures
        r.deep_view() == spec_split(s@, sep@),
    decreases s@.len(),
{
    let slen = s.unicode_len();
    let seplen = sep.unicode_len();
    match find_from(s, sep, 0) {
        None => {
            let mut out: Vec<String> = Vec::new();
            out.push(String::from_str(s));
            assert(out.deep_view() =~= spec_split(s@, sep@));
            out
        },
        Some(i) => {
            proof {
                lemma_first_match_props(s@, sep@, 0);
            }
            let head = s.substring_char(0, i);
            let tail = s.substring_char(i + seplen, slen);
            let mut out = split_str(tail, sep);
            out.insert(0, String::from_str(head));
            proof {
                assert(head@ =~= s@.take(i as int));
                assert(out.deep_view() =~= spec_split(s@, sep@));
            }
            out
        },
    }
}

} // verus!
