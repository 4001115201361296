//! Verified text utilities: substring search, suffix tests, substring
//! replacement, decimal rendering of integers, and path basenames.  The
//! policy and formatting code is specified in terms of the spec functions
//! here.

use vstd::prelude::*;

verus! {

/// `needle` occurs in `hay` starting at position `i`.
pub open spec fn contains_at(hay: Seq<char>, needle: Seq<char>, i: int) -> bool {
    0 <= i && i + needle.len() <= hay.len() && hay.subrange(i, i + needle.len()) == needle
}

/// `needle` occurs somewhere in `hay`.
pub open spec fn contains_seq(hay: Seq<char>, needle: Seq<char>) -> bool {
    exists|i: int| contains_at(hay, needle, i)
}

/// `needle` occurs in `hay` at position `at`.
fn match_at(hay: &str, needle: &str, at: usize) -> (b: bool)
    requires
        at + needle@.len() <= hay@.len(),
    ensures
        b == (hay@.subrange(at as int, at + needle@.len()) == needle@),
{
    let hlen = hay.unicode_len();
    let nlen = needle.unicode_len();
    let mut j: usize = 0;
    while j < nlen
        invariant
            nlen == needle@.len(),
            hlen == hay@.len(),
            at + nlen <= hlen,
            j <= nlen,
            forall|k: int| 0 <= k < j ==> hay@[at + k] == needle@[k],
        decreases nlen - j,
    {
        if hay.get_char(at + j) != needle.get_char(j) {
            proof {
                if hay@.subrange(at as int, at + needle@.len()) == needle@ {
                    assert(hay@.subrange(at as int, at + needle@.len())[j as int] == hay@[at + j]);
                }
            }
            return false;
        }
        j += 1;
    }
    proof {
        assert(hay@.subrange(at as int, at + needle@.len()) =~= needle@);
    }
    true
}

/// Whether `hay` contains `needle` as a contiguous run of characters.
pub fn str_contains(hay: &str, needle: &str) -> (b: bool)
    ensures
        b == contains_seq(hay@, needle@),
{
    let hlen = hay.unicode_len();
    let nlen = needle.unicode_len();
    if nlen > hlen {
        proof {
            assert forall|i: int| !contains_at(hay@, needle@, i) by {}
        }
        return false;
    }
    if nlen == 0 {
        proof {
            assert(hay@.subrange(0, 0) =~= needle@);
            assert(contains_at(hay@, needle@, 0));
        }
        return true;
    }
    let mut i: usize = 0;
    while i <= hlen - nlen
        invariant
            1 <= nlen <= hlen,
            hlen == hay@.len(),
            nlen == needle@.len(),
            i <= hlen - nlen + 1,
            forall|k: int| 0 <= k < i ==> !contains_at(hay@, needle@, k),
        decreases hlen - nlen - i + 1,
    {
        if match_at(hay, needle, i) {
            proof {
                assert(contains_at(hay@, needle@, i as int));
            }
            return true;
        }
        i += 1;
    }
    proof {
        assert forall|k: int| !contains_at(hay@, needle@, k) by {
            if 0 <= k < i {
            } else if k + needle@.len() > hay@.len() {
            }
        }
    }
    false
}

/// `suffix` is a suffix of `s`.
pub open spec fn ends_with_seq(s: Seq<char>, suffix: Seq<char>) -> bool {
    s.len() >= suffix.len() && s.subrange(s.len() - suffix.len(), s.len() as int) == suffix
}

/// Whether `s` ends with `suffix`.
pub fn str_ends_with(s: &str, suffix: &str) -> (b: bool)
    ensures
        b == ends_with_seq(s@, suffix@),
{
    let slen = s.unicode_len();
    let flen = suffix.unicode_len();
    if flen > slen {
        false
    } else {
        match_at(s, suffix, slen - flen)
    }
}

/// The character code with an ASCII upper-case letter folded to lower case.
pub open spec fn lower_code(c: char) -> u32 {
    if 65 <= c as u32 && c as u32 <= 90 {
        (c as u32 + 32) as u32
    } else {
        c as u32
    }
}

/// Character sequences equal up to ASCII case.
pub open spec fn eq_ascii_ci(a: Seq<char>, b: Seq<char>) -> bool {
    a.len() == b.len() && forall|i: int| 0 <= i < a.len() ==> lower_code(a[i]) == lower_code(b[i])
}

/// `suffix` is a suffix of `s`, compared case-insensitively over ASCII.
pub open spec fn ends_with_ascii_ci(s: Seq<char>, suffix: Seq<char>) -> bool {
    s.len() >= suffix.len() && eq_ascii_ci(s.subrange(s.len() - suffix.len(), s.len() as int), suffix)
}

/// Whether `s` ends with `suffix` up to ASCII case.
pub fn str_ends_with_ascii_ci(s: &str, suffix: &str) -> (b: bool)
    ensures
        b == ends_with_ascii_ci(s@, suffix@),
{
    let slen = s.unicode_len();
    let flen = suffix.unicode_len();
    if flen > slen {
        return false;
    }
    let at = slen - flen;
    let ghost tail = s@.subrange(s@.len() - suffix@.len(), s@.len() as int);
    let mut j: usize = 0;
    while j < flen
        invariant
            flen == suffix@.len(),
            slen == s@.len(),
            flen <= slen,
            at == slen - flen,
            j <= flen,
            tail == s@.subrange(s@.len() - suffix@.len(), s@.len() as int),
            forall|k: int| 0 <= k < j ==> lower_code(tail[k]) == lower_code(suffix@[k]),
        decreases flen - j,
    {
        let a = s.get_char(at + j) as u32;
        let b = suffix.get_char(j) as u32;
        let la = if 65 <= a && a <= 90 { a + 32 } else { a };
        let lb = if 65 <= b && b <= 90 { b + 32 } else { b };
        proof {
            assert(tail[j as int] == s@[at + j]);
        }
        if la != lb {
            return false;
        }
        j += 1;
    }
    true
}

/// Every occurrence of `from` in `s` replaced by `to`, scanning left to
/// right without revisiting replaced text.
pub open spec fn replace_seq(s: Seq<char>, from: Seq<char>, to: Seq<char>) -> Seq<char>
    decreases s.len(),
{
    if from.len() == 0 || s.len() < from.len() {
        s
    } else if s.subrange(0, from.len() as int) == from {
        to + replace_seq(s.skip(from.len() as int), from, to)
    } else {
        seq![s[0]] + replace_seq(s.skip(1), from, to)
    }
}

/// `s` with every occurrence of `from` replaced by `to`.
pub fn replace_str(s: &str, from: &str, to: &str) -> (r: String)
    requires
        from@.len() >= 1,
    ensures
        r@ == replace_seq(s@, from@, to@),
    decreases s@.len(),
{
    let slen = s.unicode_len();
    let flen = from.unicode_len();
    if slen < flen {
        return s.to_owned();
    }
    if match_at(s, from, 0) {
        let mut r = String::from_str(to);
        let rest = s.substring_char(flen, slen);
        proof {
            assert(rest@ =~= s@.skip(from@.len() as int));
        }
        let tail = replace_str(rest, from, to);
        r.append(tail.as_str());
        r
    } else {
        let head = s.substring_char(0, 1);
        let mut r = String::from_str(head);
        let rest = s.substring_char(1, slen);
        proof {
            assert(rest@ =~= s@.skip(1));
            assert(head@ =~= seq![s@[0]]);
        }
        let tail = replace_str(rest, from, to);
        r.append(tail.as_str());
        r
    }
}

/// The decimal digit character for `d`.
pub open spec fn dec_digit(d: nat) -> char {
    if d == 0 {
        '0'
    } else if d == 1 {
        '1'
    } else if d == 2 {
        '2'
    } else if d == 3 {
        '3'
    } else if d == 4 {
        '4'
    } else if d == 5 {
        '5'
    } else if d == 6 {
        '6'
    } else if d == 7 {
        '7'
    } else if d == 8 {
        '8'
    } else {
        '9'
    }
}

/// The decimal representation of `n`, most significant digit first.
pub open spec fn dec_rep(n: nat) -> Seq<char>
    decreases n,
{
    if n < 10 {
        seq![dec_digit(n)]
    } else {
        dec_rep(n / 10).push(dec_digit(n % 10))
    }
}

/// The decimal representation of a signed value: a minus sign followed by
/// the digits of the magnitude, or just the digits.
pub open spec fn int_rep(n: int) -> Seq<char> {
    if n >= 0 {
        dec_rep(n as nat)
    } else {
        seq!['-'] + dec_rep((-n) as nat)
    }
}

/// A one-character string slice for the digit `d`.
fn digit_str(d: u64) -> (r: &'static str)
    requires
        d < 10,
    ensures
        r@ == seq![dec_digit(d as nat)],
{
    proof {
        reveal_strlit("0");
        reveal_strlit("1");
        reveal_strlit("2");
        reveal_strlit("3");
        reveal_strlit("4");
        reveal_strlit("5");
        reveal_strlit("6");
        reveal_strlit("7");
        reveal_strlit("8");
        reveal_strlit("9");
    }
    let r = match d {
        0 => "0",
        1 => "1",
        2 => "2",
        3 => "3",
        4 => "4",
        5 => "5",
        6 => "6",
        7 => "7",
        8 => "8",
        _ => "9",
    };
    proof {
        assert(r@ =~= seq![dec_digit(d as nat)]);
    }
    r
}

/// `n` written in decimal.
pub fn u64_to_string(n: u64) -> (r: String)
    ensures
        r@ == dec_rep(n as nat),
    decreases n,
{
    if n < 10 {
        digit_str(n).to_owned()
    } else {
        let mut r = u64_to_string(n / 10);
        r.append(digit_str(n % 10));
        proof {
            assert(dec_rep((n / 10) as nat).push(dec_digit((n % 10) as nat)) =~= dec_rep(
                (n / 10) as nat,
            ) + seq![dec_digit((n % 10) as nat)]);
        }
        r
    }
}

/// `n` written in decimal, with a leading minus sign when negative.
pub fn i64_to_string(n: i64) -> (r: String)
    ensures
        r@ == int_rep(n as int),
{
    if n >= 0 {
        u64_to_string(n as u64)
    } else {
        let mag: u64 = (-(n + 1)) as u64 + 1;
        proof {
            assert(mag == -(n as int));
        }
        let mut r = String::from_str("-");
        r.append(u64_to_string(mag).as_str());
        proof {
            reveal_strlit("-");
            assert("-"@ =~= seq!['-']);
        }
        r
    }
}

/// The index of the last path separator in `s`, or -1 when none occurs.
pub open spec fn last_sep(s: Seq<char>) -> int
    decreases s.len(),
{
    if s.len() == 0 {
        -1
    } else if is_sep(s[s.len() - 1]) {
        s.len() - 1
    } else {
        last_sep(s.take(s.len() - 1))
    }
}

/// A path separator character.
pub open spec fn is_sep(c: char) -> bool {
    c == '/' || c == '\\'
}

proof fn lemma_last_sep_bounds(s: Seq<char>)
    ensures
        -1 <= last_sep(s) < s.len(),
    decreases s.len(),
{
    if s.len() > 0 && !is_sep(s[s.len() - 1]) {
        lemma_last_sep_bounds(s.take(s.len() - 1));
    }
}

/// The index of the last path separator of `s`.
fn rfind_sep(s: &str) -> (r: Option<usize>)
    ensures
        match r {
            Some(i) => i == last_sep(s@) && last_sep(s@) >= 0,
            None => last_sep(s@) == -1,
        },
{
    let len = s.unicode_len();
    let mut i: usize = len;
    proof {
        assert(s@.take(len as int) =~= s@);
    }
    while i > 0
        invariant
            len == s@.len(),
            i <= len,
            last_sep(s@) == last_sep(s@.take(i as int)),
        decreases i,
    {
        let c = s.get_char(i - 1);
        proof {
            assert(s@.take(i as int)[i - 1] == s@[i - 1]);
        }
        if c == '/' || c == '\\' {
            return Some(i - 1);
        }
        proof {
            assert(s@.take(i as int).take(i - 1) =~= s@.take(i - 1));
        }
        i -= 1;
    }
    None
}

/// The final two path components of `location`, joined by a backslash; a
/// path with no separator is returned whole.
pub open spec fn basename_spec(s: Seq<char>) -> Seq<char> {
    let i = last_sep(s);
    if i < 0 {
        s
    } else {
        let head = s.take(i);
        let tail = s.skip(i + 1);
        let j = last_sep(head);
        if j < 0 {
            head + seq!['\\'] + tail
        } else {
            head.skip(j + 1) + seq!['\\'] + tail
        }
    }
}

/// The final directory name and file name of a path.
pub fn basename_of(location: &str) -> (r: String)
    ensures
        r@ == basename_spec(location@),
{
    let len = location.unicode_len();
    match rfind_sep(location) {
        None => location.to_owned(),
        Some(i) => {
            proof {
                lemma_last_sep_bounds(location@);
            }
            let head = location.substring_char(0, i);
            let tail = location.substring_char(i + 1, len);
            proof {
                assert(head@ =~= location@.take(i as int));
                assert(tail@ =~= location@.skip(i + 1));
                lemma_last_sep_bounds(head@);
            }
            let start = match rfind_sep(head) {
                None => 0,
                Some(j) => j + 1,
            };
            let mut r = String::from_str(head.substring_char(start, i));
            r.append("\\");
            r.append(tail);
            proof {
                reveal_strlit("\\");
                assert("\\"@ =~= seq!['\\']);
                if last_sep(head@) < 0 {
                    assert(head@.subrange(0, i as int) =~= head@);
                } else {
                    assert(head@.subrange(last_sep(head@) + 1, i as int) =~= head@.skip(
                        last_sep(head@) + 1,
                    ));
                }
            }
            r
        },
    }
}

/// The parts joined by a carriage-return/line-feed pair, with no trailing
/// separator.
pub open spec fn join_crlf(parts: Seq<Seq<char>>) -> Seq<char>
    decreases parts.len(),
{
    if parts.len() == 0 {
        Seq::empty()
    } else if parts.len() == 1 {
        parts[0]
    } else {
        parts[0] + seq!['\r', '\n'] + join_crlf(parts.skip(1))
    }
}

fn join_crlf_from(parts: &Vec<String>, from: usize) -> (r: String)
    requires
        from <= parts@.len(),
    ensures
        r@ == join_crlf(parts.deep_view().skip(from as int)),
    decreases parts@.len() - from,
{
    let ghost ps = parts.deep_view();
    if from == parts.len() {
        proof {
            assert(ps.skip(from as int) =~= Seq::<Seq<char>>::empty());
        }
        String::new()
    } else if from + 1 == parts.len() {
        proof {
            assert(ps.skip(from as int).len() == 1);
            assert(ps.skip(from as int)[0] == ps[from as int]);
            assert(ps[from as int] == parts@[from as int]@);
        }
        parts[from].clone()
    } else {
        let mut r = parts[from].clone();
        r.append("\r\n");
        let tail = join_crlf_from(parts, from + 1);
        r.append(tail.as_str());
        proof {
            reveal_strlit("\r\n");
            assert("\r\n"@ =~= seq!['\r', '\n']);
            assert(ps.skip(from as int)[0] == ps[from as int]);
            assert(ps[from as int] == parts@[from as int]@);
            assert(ps.skip(from as int).skip(1) =~= ps.skip(from + 1));
            assert(ps.skip(from as int).len() == ps.len() - from);
        }
        r
    }
}

/// The strings joined by a carriage-return/line-feed pair.
pub fn join_lines(parts: &Vec<String>) -> (r: String)
    ensures
        r@ == join_crlf(parts.deep_view()),
{
    let r = join_crlf_from(parts, 0);
    proof {
        assert(parts.deep_view().skip(0) =~= parts.deep_view());
    }
    r
}

/// Whether the slice of ids contains `x`.
pub fn contains_u16(v: &Vec<u16>, x: u16) -> (b: bool)
    ensures
        b == v@.contains(x),
{
    let mut i: usize = 0;
    while i < v.len()
        invariant
            i <= v@.len(),
            forall|k: int| 0 <= k < i ==> v@[k] != x,
        decreases v@.len() - i,
    {
        if v[i] == x {
            return true;
        }
        i += 1;
    }
    proof {
        assert(!v@.contains(x));
    }
    false
}

} // verus!
