//! Text helpers shared by the configuration, tracing and tooling modules:
//! decimal rendering of sizes, substring search and line search in command output.
use vstd::prelude::*;

verus! {

/// The character of a decimal digit.
pub open spec fn digit_char(d: nat) -> char {
    if d == 0 { '0' }
    else if d == 1 { '1' }
    else if d == 2 { '2' }
    else if d == 3 { '3' }
    else if d == 4 { '4' }
    else if d == 5 { '5' }
    else if d == 6 { '6' }
    else if d == 7 { '7' }
    else if d == 8 { '8' }
    else { '9' }
}

/// The value of a decimal digit character (meaningful for '0'..='9').
pub open spec fn char_value(c: char) -> nat {
    if c == '1' { 1 }
    else if c == '2' { 2 }
    else if c == '3' { 3 }
    else if c == '4' { 4 }
    else if c == '5' { 5 }
    else if c == '6' { 6 }
    else if c == '7' { 7 }
    else if c == '8' { 8 }
    else if c == '9' { 9 }
    else { 0 }
}

pub open spec fn is_digit(c: char) -> bool {
    '0' <= c && c <= '9'
}

/// The shortest decimal rendering of `n`, as `usize`'s `Display` writes it.
pub open spec fn decimal(n: nat) -> Seq<char>
    decreases n,
{
    if n < 10 {
        seq![digit_char(n)]
    } else {
        decimal(n / 10).push(digit_char(n % 10))
    }
}

/// The number that a string of decimal digits denotes.
pub open spec fn digits_value(s: Seq<char>) -> nat
    decreases s.len(),
{
    if s.len() == 0 {
        0
    } else {
        digits_value(s.drop_last()) * 10 + char_value(s.last())
    }
}

/// Reading back the decimal rendering of a number gives the number; the rendering
/// is made of digits only, and starts with '0' only when the number is zero.
pub proof fn lemma_decimal_round_trip(n: nat)
    ensures
        digits_value(decimal(n)) == n,
        decimal(n).len() >= 1,
        forall|i: int| 0 <= i < decimal(n).len() ==> is_digit(#[trigger] decimal(n)[i]),
        decimal(n)[0] == '0' ==> n == 0,
    decreases n,
{
    if n < 10 {
        assert(decimal(n).drop_last() =~= Seq::<char>::empty());
        assert(digits_value(Seq::<char>::empty()) == 0);
        assert(char_value(digit_char(n)) == n);
    } else {
        lemma_decimal_round_trip(n / 10);
        let s = decimal(n);
        assert(char_value(digit_char(n % 10)) == n % 10);
        assert(s.drop_last() =~= decimal(n / 10));
        assert(s.last() == digit_char(n % 10));
        assert(digits_value(s) == digits_value(decimal(n / 10)) * 10 + n % 10);
        assert((n / 10) * 10 + n % 10 == n);
        assert(s[0] == decimal(n / 10)[0]);
        assert forall|i: int| 0 <= i < s.len() implies is_digit(#[trigger] s[i]) by {
            if i < s.len() - 1 {
                assert(s[i] == decimal(n / 10)[i]);
            }
        }
    }
}

fn digit_str(d: usize) -> (s: &'static str)
    requires
        d < 10,
    ensures
        s@ == seq![digit_char(d as nat)],
{
    if d == 0 {
        proof { reveal_strlit("0"); }
        "0"
    } else if d == 1 {
        proof { reveal_strlit("1"); }
        "1"
    } else if d == 2 {
        proof { reveal_strlit("2"); }
        "2"
    } else if d == 3 {
        proof { reveal_strlit("3"); }
        "3"
    } else if d == 4 {
        proof { reveal_strlit("4"); }
        "4"
    } else if d == 5 {
        proof { reveal_strlit("5"); }
        "5"
    } else if d == 6 {
        proof { reveal_strlit("6"); }
        "6"
    } else if d == 7 {
        proof { reveal_strlit("7"); }
        "7"
    } else if d == 8 {
        proof { reveal_strlit("8"); }
        "8"
    } else {
        proof { reveal_strlit("9"); }
        "9"
    }
}

/// Renders `n` in decimal.
pub fn usize_to_decimal(n: usize) -> (s: String)
    ensures
        s@ == decimal(n as nat),
    decreases n,
{
    if n < 10 {
        let s = String::from_str(digit_str(n));
        s
    } else {
        let head = usize_to_decimal(n / 10);
        let s = head.concat(digit_str(n % 10));
        s
    }
}

/// Appends a copy of `s` to a list of strings.
pub fn push_str(v: &mut Vec<String>, s: &str)
    ensures
        final(v).deep_view() == old(v).deep_view().push(s@),
{
    let ghost before = v.deep_view();
    v.push(String::from_str(s));
    assert(v.deep_view() =~= before.push(s@));
}

/// Whether `needle` occurs in `hay` as a contiguous run of characters.
pub open spec fn contains_seq(hay: Seq<char>, needle: Seq<char>) -> bool {
    exists|i: int| 0 <= i <= hay.len() - needle.len()
        && #[trigger] hay.subrange(i, i + needle.len()) == needle
}

/// Whether `needle` occurs in `hay` at character position `at`.
fn occurs_at(hay: &str, hay_len: usize, needle: &str, needle_len: usize, at: usize) -> (b: bool)
    requires
        hay_len == hay@.len(),
        needle_len == needle@.len(),
        at + needle_len <= hay_len,
    ensures
        b == (hay@.subrange(at as int, at + needle_len) == needle@),
{
    let mut k: usize = 0;
    while k < needle_len
        invariant
            hay_len == hay@.len(),
            needle_len == needle@.len(),
            at + needle_len <= hay_len,
            k <= needle_len,
            forall|j: int| 0 <= j < k ==> hay@[at + j] == needle@[j],
        decreases needle_len - k,
    {
        if hay.get_char(at + k) != needle.get_char(k) {
            assert(hay@.subrange(at as int, at + needle_len)[k as int] != needle@[k as int]);
            return false;
        }
        k = k + 1;
    }
    assert(hay@.subrange(at as int, at + needle_len) =~= needle@);
    true
}

/// Whether `hay` contains `needle`, as `str::contains` with a string pattern answers.
pub fn str_contains(hay: &str, needle: &str) -> (b: bool)
    ensures
        b == contains_seq(hay@, needle@),
{
    let hay_len = hay.unicode_len();
    let needle_len = needle.unicode_len();
    if needle_len > hay_len {
        assert(!contains_seq(hay@, needle@));
        return false;
    }
    let mut at: usize = 0;
    let last = hay_len - needle_len;
    while at < last
        invariant
            hay_len == hay@.len(),
            needle_len == needle@.len(),
            needle_len <= hay_len,
            last == hay_len - needle_len,
            at <= last,
            forall|i: int| 0 <= i < at ==> #[trigger] hay@.subrange(i, i + needle@.len()) != needle@,
        decreases last - at,
    {
        if occurs_at(hay, hay_len, needle, needle_len, at) {
            assert(hay@.subrange(at as int, at + needle@.len()) == needle@);
            return true;
        }
        at = at + 1;
    }
    if occurs_at(hay, hay_len, needle, needle_len, last) {
        assert(hay@.subrange(last as int, last + needle@.len()) == needle@);
        return true;
    }
    assert forall|i: int| 0 <= i <= hay@.len() - needle@.len() implies
        #[trigger] hay@.subrange(i, i + needle@.len()) != needle@ by {}
    false
}

/// The byte of a line feed.
pub open spec fn newline() -> u8 {
    10u8
}

/// The byte of a carriage return.
pub open spec fn carriage_return() -> u8 {
    13u8
}

/// A line read up to a line feed loses a carriage return that ends it.
pub open spec fn strip_cr(line: Seq<u8>) -> Seq<u8> {
    if line.len() > 0 && line.last() == carriage_return() {
        line.drop_last()
    } else {
        line
    }
}

/// No line feed in `s` between `from` and `to`.
pub open spec fn no_newline_between(s: Seq<u8>, from: int, to: int) -> bool {
    forall|k: int| from <= k < to ==> #[trigger] s[k] != newline()
}

/// `s[from..to]` is a line of `s` as `BufRead::lines` yields it, and it reads `wanted`:
/// it starts at the beginning or after a line feed, holds no line feed, and either ends
/// at a line feed (a carriage return before it dropped) or is a last, non-empty line
/// that runs to the end without one.
pub open spec fn is_line_at(s: Seq<u8>, from: int, to: int, wanted: Seq<u8>) -> bool {
    &&& 0 <= from <= to <= s.len()
    &&& (from == 0 || s[from - 1] == newline())
    &&& no_newline_between(s, from, to)
    &&& if to < s.len() {
        s[to] == newline() && strip_cr(s.subrange(from, to)) == wanted
    } else {
        from < to && s.subrange(from, to) == wanted
    }
}

/// Some line of `s` reads `wanted`.
pub open spec fn has_line(s: Seq<u8>, wanted: Seq<u8>) -> bool {
    exists|from: int, to: int| #[trigger] is_line_at(s, from, to, wanted)
}

/// Whether `s[from..to]`, with a carriage return at its end dropped when `strip` is set,
/// reads `wanted`.
fn segment_is(s: &[u8], from: usize, to: usize, strip: bool, wanted: &[u8]) -> (b: bool)
    requires
        from <= to <= s@.len(),
    ensures
        b == (if strip {
            strip_cr(s@.subrange(from as int, to as int)) == wanted@
        } else {
            s@.subrange(from as int, to as int) == wanted@
        }),
{
    let ghost seg = s@.subrange(from as int, to as int);
    let mut end = to;
    if strip && from < to && s[to - 1] == 13u8 {
        end = to - 1;
        assert(strip_cr(seg) =~= s@.subrange(from as int, end as int));
    } else {
        if strip {
            assert(strip_cr(seg) == seg);
        }
    }
    assert((if strip { strip_cr(seg) } else { seg }) == s@.subrange(from as int, end as int));
    if end - from != wanted.len() {
        assert(s@.subrange(from as int, end as int).len() != wanted@.len());
        return false;
    }
    let mut k: usize = 0;
    while k < wanted.len()
        invariant
            from <= end <= s@.len(),
            end - from == wanted@.len(),
            seg == s@.subrange(from as int, to as int),
            (if strip { strip_cr(seg) } else { seg }) == s@.subrange(from as int, end as int),
            k <= wanted@.len(),
            forall|j: int| 0 <= j < k ==> s@[from + j] == wanted@[j],
        decreases wanted@.len() - k,
    {
        if s[from + k] != wanted[k] {
            assert(s@.subrange(from as int, end as int)[k as int] != wanted@[k as int]);
            assert((if strip { strip_cr(seg) } else { seg }) != wanted@);
            return false;
        }
        k = k + 1;
    }
    assert(s@.subrange(from as int, end as int) =~= wanted@);
    true
}

/// Whether some line of `listing` (split as `BufRead::lines` splits it) equals `wanted`.
pub fn lines_contain(listing: &[u8], wanted: &[u8]) -> (found: bool)
    ensures
        found == has_line(listing@, wanted@),
{
    let n = listing.len();
    let mut start: usize = 0;
    let mut i: usize = 0;
    let mut found = false;
    while i < n
        invariant
            n == listing@.len(),
            start <= i <= n,
            start == 0 || listing@[start - 1] == newline(),
            no_newline_between(listing@, start as int, i as int),
            found == exists|from: int, to: int|
                to < i && #[trigger] is_line_at(listing@, from, to, wanted@),
        decreases n - i,
    {
        if listing[i] == 10u8 {
            let here = segment_is(listing, start, i, true, wanted);
            proof {
                let s = listing@;
                if here {
                    assert(is_line_at(s, start as int, i as int, wanted@));
                }
                assert forall|from: int, to: int| to == i && #[trigger] is_line_at(s, from, to, wanted@)
                    implies from == start && here by {
                    if from < start {
                        assert(s[start - 1] == newline());
                    } else if from > start {
                        assert(s[from - 1] == newline());
                    }
                }
            }
            found = found || here;
            start = i + 1;
        }
        i = i + 1;
    }
    proof {
        let s = listing@;
        assert forall|from: int, to: int| to == n && #[trigger] is_line_at(s, from, to, wanted@)
            implies from == start by {
            if from < start {
                assert(s[start - 1] == newline());
            } else if from > start {
                assert(s[from - 1] == newline());
            }
        }
    }
    if start < n {
        let last = segment_is(listing, start, n, false, wanted);
        proof {
            if last {
                assert(is_line_at(listing@, start as int, n as int, wanted@));
            }
        }
        found = found || last;
    }
    found
}

} // verus!
