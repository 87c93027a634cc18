//! Path and digest helpers, and the bounded retry policy used by file
//! probing and by outbound sends.

use vstd::arithmetic::power::{lemma_pow_increases, lemma_pow_positive, pow};
use vstd::prelude::*;

use crate::error::AgentError;
use crate::text::eq_str;

verus! {

/// A path separator: both conventions the hooked client emits.
pub open spec fn is_sep(c: char) -> bool {
    c == '/' || c == '\\'
}

/// Index of the last occurrence of `c1` or `c2` in `s`, or -1.
pub open spec fn last_pos(s: Seq<char>, c1: char, c2: char) -> int
    decreases s.len(),
{
    if s.len() == 0 {
        -1
    } else if s.last() == c1 || s.last() == c2 {
        s.len() - 1
    } else {
        last_pos(s.drop_last(), c1, c2)
    }
}

proof fn lemma_last_pos_suffix(s: Seq<char>, c1: char, c2: char, i: int)
    requires
        0 <= i <= s.len(),
        forall|k: int| i <= k < s.len() ==> s[k] != c1 && s[k] != c2,
    ensures
        last_pos(s, c1, c2) == last_pos(s.take(i), c1, c2),
    decreases s.len() - i,
{
    if i < s.len() {
        assert(s[s.len() - 1] != c1 && s[s.len() - 1] != c2);
        assert(s.drop_last() =~= s.take(s.len() - 1));
        assert(forall|k: int|
            i <= k < s.len() - 1 ==> s.take(s.len() - 1)[k] == #[trigger] s[k]);
        lemma_last_pos_suffix(s.take(s.len() - 1), c1, c2, i);
        assert(s.take(s.len() - 1).take(i) =~= s.take(i));
    } else {
        assert(s.take(i) =~= s);
    }
}

/// Finds the last occurrence of `c1` or `c2`.
pub fn last_index_of(s: &str, c1: char, c2: char) -> (r: Option<usize>)
    ensures
        r matches Some(i) ==> last_pos(s@, c1, c2) == i as int && (i as int) < s@.len(),
        r is None ==> last_pos(s@, c1, c2) == -1,
{
    let slen = s.unicode_len();
    let mut i = slen;
    while i > 0
        invariant
            slen == s@.len(),
            0 <= i <= slen,
            forall|k: int| i <= k < slen ==> s@[k] != c1 && s@[k] != c2,
        ensures
            i == 0 || (s@[i - 1] == c1 || s@[i - 1] == c2),
            forall|k: int| i <= k < slen ==> s@[k] != c1 && s@[k] != c2,
        decreases i,
    {
        let c = s.get_char(i - 1);
        if c == c1 || c == c2 {
            break;
        }
        i -= 1;
    }
    proof {
        lemma_last_pos_suffix(s@, c1, c2, i as int);
        if i > 0 {
            assert(s@.take(i as int).last() == s@[i - 1]);
        }
    }
    if i == 0 {
        None
    } else {
        Some(i - 1)
    }
}

/// The path without its trailing separators.
pub open spec fn spec_strip_trailing_seps(s: Seq<char>) -> Seq<char>
    decreases s.len(),
{
    if s.len() > 0 && is_sep(s.last()) {
        spec_strip_trailing_seps(s.drop_last())
    } else {
        s
    }
}

/// The file-name part of a path: the last component, with trailing
/// separators ignored.
pub open spec fn spec_filename(s: Seq<char>) -> Seq<char> {
    let t = spec_strip_trailing_seps(s);
    t.subrange(last_pos(t, '/', '\\') + 1, t.len() as int)
}

/// Whether a path has a file name: a non-empty last component that is not
/// one of the two relative markers. (A last component of `.` is refused
/// rather than resolved away; the hook never emits one.)
pub open spec fn spec_has_filename(s: Seq<char>) -> bool {
    &&& spec_filename(s).len() > 0
    &&& spec_filename(s) != ".."@
    &&& spec_filename(s) != "."@
}

/// Extracts the file name from a path; fails when the path has none.
pub fn get_filename(path: &str) -> (r: Result<String, AgentError>)
    ensures
        r matches Ok(n) ==> n@ == spec_filename(path@) && spec_has_filename(path@),
        r is Err ==> !spec_has_filename(path@),
{
    let slen = path.unicode_len();
    let mut end: usize = slen;
    proof {
        assert(path@.take(slen as int) =~= path@);
    }
    while end > 0
        invariant
            slen == path@.len(),
            0 <= end <= slen,
            spec_strip_trailing_seps(path@) == spec_strip_trailing_seps(path@.take(end as int)),
        ensures
            end == 0 || !is_sep(path@[end - 1]),
            spec_strip_trailing_seps(path@) == spec_strip_trailing_seps(path@.take(end as int)),
        decreases end,
    {
        let c = path.get_char(end - 1);
        if !(c == '/' || c == '\\') {
            break;
        }
        proof {
            assert(path@.take(end as int).drop_last() =~= path@.take(end - 1));
        }
        end -= 1;
    }
    let stem = path.substring_char(0, end);
    proof {
        assert(stem@ =~= path@.take(end as int));
        assert(spec_strip_trailing_seps(stem@) == stem@);
    }
    let cut: usize = match last_index_of(stem, '/', '\\') {
        Some(i) => i + 1,
        None => 0,
    };
    assert(cut as int == last_pos(stem@, '/', '\\') + 1);
    if cut >= end {
        return Err(AgentError::TranslationFailure(String::from_str("path has no file name")));
    }
    let name = stem.substring_char(cut, end);
    if eq_str(name, "..") || eq_str(name, ".") {
        return Err(AgentError::TranslationFailure(String::from_str("path has no file name")));
    }
    Ok(String::from_str(name))
}

/// The path with its extension replaced by `ext`. An extension is what
/// follows the last dot of the file-name part, when that dot is not its
/// first character; without one, a dot and `ext` are appended.
pub open spec fn spec_with_extension(s: Seq<char>, ext: Seq<char>) -> Seq<char> {
    let stem = if last_pos(s, '.', '.') > last_pos(s, '/', '\\') + 1 {
        s.take(last_pos(s, '.', '.'))
    } else {
        s
    };
    stem + seq!['.'] + ext
}

pub fn with_extension(path: &str, ext: &str) -> (r: String)
    ensures
        r@ == spec_with_extension(path@, ext@),
{
    let slen = path.unicode_len();
    let dot = last_index_of(path, '.', '.');
    let sep = last_index_of(path, '/', '\\');
    let cut: usize = match (dot, sep) {
        (Some(d), Some(p)) => if d > p + 1 {
            d
        } else {
            slen
        },
        (Some(d), None) => if d > 0 {
            d
        } else {
            slen
        },
        _ => slen,
    };
    let mut out = String::from_str(path.substring_char(0, cut));
    proof {
        if cut == slen {
            assert(path@.subrange(0, slen as int) =~= path@);
        } else {
            assert(path@.subrange(0, cut as int) =~= path@.take(cut as int));
        }
    }
    out.push('.');
    out.append(ext);
    proof {
        assert(out@ =~= spec_with_extension(path@, ext@));
    }
    out
}

/// `a` and `b` joined by a forward slash, unless `a` already ends with a
/// separator.
pub open spec fn spec_join_path(a: Seq<char>, b: Seq<char>) -> Seq<char> {
    if a.len() > 0 && is_sep(a.last()) {
        a + b
    } else {
        a + seq!['/'] + b
    }
}

pub fn join_path(a: &str, b: &str) -> (r: String)
    ensures
        r@ == spec_join_path(a@, b@),
{
    let alen = a.unicode_len();
    let mut out = String::from_str(a);
    if alen == 0 {
        out.push('/');
    } else {
        let c = a.get_char(alen - 1);
        if !(c == '/' || c == '\\') {
            out.push('/');
        }
    }
    out.append(b);
    proof {
        if a@.len() > 0 && is_sep(a@.last()) {
            assert(out@ =~= a@ + b@);
        } else {
            assert(out@ =~= a@ + seq!['/'] + b@);
        }
    }
    out
}

/// The upper-case hexadecimal character for a value below sixteen.
pub open spec fn hex_char(v: int) -> char {
    if v == 0 {
        '0'
    } else if v == 1 {
        '1'
    } else if v == 2 {
        '2'
    } else if v == 3 {
        '3'
    } else if v == 4 {
        '4'
    } else if v == 5 {
        '5'
    } else if v == 6 {
        '6'
    } else if v == 7 {
        '7'
    } else if v == 8 {
        '8'
    } else if v == 9 {
        '9'
    } else if v == 10 {
        'A'
    } else if v == 11 {
        'B'
    } else if v == 12 {
        'C'
    } else if v == 13 {
        'D'
    } else if v == 14 {
        'E'
    } else {
        'F'
    }
}

/// Upper-case hexadecimal rendering of a byte sequence, two characters per
/// byte.
pub open spec fn spec_hex_upper(data: Seq<u8>) -> Seq<char>
    decreases data.len(),
{
    if data.len() == 0 {
        Seq::empty()
    } else {
        spec_hex_upper(data.drop_last()).push(hex_char(data.last() as int / 16)).push(
            hex_char(data.last() as int % 16),
        )
    }
}

fn hex_digit_char(v: u8) -> (c: char)
    requires
        v < 16,
    ensures
        c == hex_char(v as int),
{
    if v == 0 {
        '0'
    } else if v == 1 {
        '1'
    } else if v == 2 {
        '2'
    } else if v == 3 {
        '3'
    } else if v == 4 {
        '4'
    } else if v == 5 {
        '5'
    } else if v == 6 {
        '6'
    } else if v == 7 {
        '7'
    } else if v == 8 {
        '8'
    } else if v == 9 {
        '9'
    } else if v == 10 {
        'A'
    } else if v == 11 {
        'B'
    } else if v == 12 {
        'C'
    } else if v == 13 {
        'D'
    } else if v == 14 {
        'E'
    } else {
        'F'
    }
}

/// Renders bytes as upper-case hexadecimal text.
pub fn to_hex_upper(data: &Vec<u8>) -> (r: String)
    ensures
        r@ == spec_hex_upper(data@),
{
    let mut out = String::new();
    let n = data.len();
    let mut i: usize = 0;
    while i < n
        invariant
            n == data@.len(),
            0 <= i <= n,
            out@ == spec_hex_upper(data@.take(i as int)),
        decreases n - i,
    {
        let b = data[i];
        out.push(hex_digit_char(b / 16));
        out.push(hex_digit_char(b % 16));
        proof {
            assert(data@.take(i + 1).drop_last() =~= data@.take(i as int));
            assert(data@.take(i + 1).last() == data@[i as int]);
        }
        i += 1;
    }
    proof {
        assert(data@.take(n as int) =~= data@);
    }
    out
}

/// The MD5 digest of a byte sequence, named; it is a pure function of the
/// input alone.
pub uninterp spec fn md5_of(data: Seq<u8>) -> Seq<u8>;

/// Relies on rust-crypto's `crypto::md5::Md5` with `crypto::digest::Digest`:
/// the digest depends on the input bytes alone and is 16 bytes (128 bits)
/// long.
#[verifier::external_body]
fn md5_digest(blob: &Vec<u8>) -> (r: Vec<u8>)
    ensures
        r@ == md5_of(blob@),
        r@.len() == 16,
{
    let mut hasher = crypto::md5::Md5::new();
    crypto::digest::Digest::input(&mut hasher, blob.as_slice());
    let mut out = [0u8; 16];
    crypto::digest::Digest::result(&mut hasher, &mut out);
    out.to_vec()
}

/// Hexadecimal text is two characters per byte.
pub proof fn lemma_hex_upper_len(data: Seq<u8>)
    ensures
        spec_hex_upper(data).len() == 2 * data.len(),
    decreases data.len(),
{
    if data.len() > 0 {
        lemma_hex_upper_len(data.drop_last());
    }
}

/// The upper-case hexadecimal text of the MD5 digest of `blob`: 32
/// characters, two per digest byte.
pub fn calculate_md5(blob: &Vec<u8>) -> (r: String)
    ensures
        r@ == spec_hex_upper(md5_of(blob@)),
        r@.len() == 32,
{
    let digest = md5_digest(blob);
    proof {
        lemma_hex_upper_len(digest@);
    }
    to_hex_upper(&digest)
}

/// A bounded retry policy: at most `max_attempts` tries, waiting
/// `initial_delay_ms` before the second try and growing the wait by
/// `multiplier` after each further failure.
#[derive(Clone, Copy, Debug, PartialEq, Eq, Structural)]
pub struct RetryPolicy {
    pub max_attempts: u32,
    pub initial_delay_ms: u64,
    pub multiplier: u64,
}

impl RetryPolicy {
    /// The wait after `attempt` failures so far.
    pub open spec fn spec_delay(self, attempt: nat) -> int {
        self.initial_delay_ms * pow(self.multiplier as int, attempt)
    }

    /// The policy the file probe uses: three tries, one second first, doubling.
    pub fn file_probe() -> (r: RetryPolicy)
        ensures
            r.max_attempts == 3,
            r.initial_delay_ms == 1000,
            r.multiplier == 2,
    {
        RetryPolicy { max_attempts: 3, initial_delay_ms: 1000, multiplier: 2 }
    }

    /// The wait before the next try after `attempt` failures, or `None` when
    /// the attempts are exhausted.
    pub fn delay_for(&self, attempt: u32) -> (r: Option<u64>)
        requires
            self.spec_delay(attempt as nat) <= u64::MAX,
        ensures
            attempt < self.max_attempts ==> r == Some(
                (self.initial_delay_ms * pow(self.multiplier as int, attempt as nat)) as u64,
            ),
            attempt >= self.max_attempts ==> r is None,
    {
        if attempt >= self.max_attempts {
            return None;
        }
        let mut acc: u64 = self.initial_delay_ms;
        let mut i: u32 = 0;
        proof {
            reveal(pow);
            assert(pow(self.multiplier as int, 0) == 1);
        }
        while i < attempt
            invariant
                i <= attempt,
                acc == self.spec_delay(i as nat),
                self.spec_delay(attempt as nat) <= u64::MAX,
            decreases attempt - i,
        {
            proof {
                reveal(pow);
                assert(pow(self.multiplier as int, i as nat + 1) == self.multiplier * pow(
                    self.multiplier as int,
                    i as nat,
                ));
                if self.multiplier >= 1 {
                    lemma_pow_positive(self.multiplier as int, i as nat + 1);
                    lemma_pow_increases(self.multiplier as nat, i as nat + 1, attempt as nat);
                    assert(self.spec_delay(i as nat + 1) <= self.spec_delay(attempt as nat))
                        by (nonlinear_arith)
                        requires
                            pow(self.multiplier as int, i as nat + 1) <= pow(
                                self.multiplier as int,
                                attempt as nat,
                            ),
                            pow(self.multiplier as int, i as nat + 1) >= 0,
                            self.initial_delay_ms >= 0,
                            self.spec_delay(i as nat + 1) == self.initial_delay_ms * pow(
                                self.multiplier as int,
                                i as nat + 1,
                            ),
                            self.spec_delay(attempt as nat) == self.initial_delay_ms * pow(
                                self.multiplier as int,
                                attempt as nat,
                            ),
                    ;
                } else {
                    assert(pow(self.multiplier as int, i as nat + 1) == 0) by (nonlinear_arith)
                        requires
                            self.multiplier == 0,
                            pow(self.multiplier as int, i as nat + 1) == self.multiplier * pow(
                                self.multiplier as int,
                                i as nat,
                            ),
                    ;
                    assert(self.spec_delay(i as nat + 1) == 0) by (nonlinear_arith)
                        requires
                            pow(self.multiplier as int, i as nat + 1) == 0,
                            self.spec_delay(i as nat + 1) == self.initial_delay_ms * pow(
                                self.multiplier as int,
                                i as nat + 1,
                            ),
                    ;
                }
                assert(self.spec_delay(i as nat + 1) == acc * self.multiplier)
                    by (nonlinear_arith)
                    requires
                        acc == self.spec_delay(i as nat),
                        self.spec_delay(i as nat) == self.initial_delay_ms * pow(
                            self.multiplier as int,
                            i as nat,
                        ),
                        self.spec_delay(i as nat + 1) == self.initial_delay_ms * pow(
                            self.multiplier as int,
                            i as nat + 1,
                        ),
                        pow(self.multiplier as int, i as nat + 1) == self.multiplier * pow(
                            self.multiplier as int,
                            i as nat,
                        ),
                ;
            }
            acc = acc * self.multiplier;
            i += 1;
        }
        Some(acc)
    }
}

} // verus!
