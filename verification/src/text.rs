//! Small verified text utilities shared by the other modules: whitespace
//! trimming, substring search, ASCII case-insensitive comparison and decimal
//! rendering of integers.

use vstd::prelude::*;

verus! {

/// The whitespace characters recognised when trimming: the ASCII blank
/// characters together with the ideographic space.
pub open spec fn is_trim_space(c: char) -> bool {
    ||| c == ' '
    ||| c == '\t'
    ||| c == '\n'
    ||| c == '\r'
    ||| c == '\u{000B}'
    ||| c == '\u{000C}'
    ||| c == '\u{3000}'
}

fn char_is_trim_space(c: char) -> (r: bool)
    ensures
        r == is_trim_space(c),
{
    c == ' ' || c == '\t' || c == '\n' || c == '\r' || c == '\u{000B}' || c == '\u{000C}'
        || c == '\u{3000}'
}

pub open spec fn spec_trim_start(s: Seq<char>) -> Seq<char>
    decreases s.len(),
{
    if s.len() > 0 && is_trim_space(s[0]) {
        spec_trim_start(s.skip(1))
    } else {
        s
    }
}

pub open spec fn spec_trim_end(s: Seq<char>) -> Seq<char>
    decreases s.len(),
{
    if s.len() > 0 && is_trim_space(s[s.len() - 1]) {
        spec_trim_end(s.take(s.len() - 1))
    } else {
        s
    }
}

/// `s` without leading and trailing whitespace.
pub open spec fn spec_trim(s: Seq<char>) -> Seq<char> {
    spec_trim_end(spec_trim_start(s))
}

proof fn lemma_trim_start_prefix(s: Seq<char>, k: int)
    requires
        0 <= k <= s.len(),
        forall|j: int| 0 <= j < k ==> is_trim_space(#[trigger] s[j]),
        k < s.len() ==> !is_trim_space(s[k]),
    ensures
        spec_trim_start(s) == s.skip(k),
    decreases k,
{
    if k == 0 {
        assert(s.skip(0) =~= s);
    } else {
        assert(is_trim_space(s[0]));
        let t = s.skip(1);
        assert(forall|j: int| 0 <= j < k - 1 ==> is_trim_space(#[trigger] t[j]));
        lemma_trim_start_prefix(t, k - 1);
        assert(t.skip(k - 1) =~= s.skip(k));
    }
}

proof fn lemma_trim_end_suffix(s: Seq<char>, k: int)
    requires
        0 <= k <= s.len(),
        forall|j: int| k <= j < s.len() ==> is_trim_space(#[trigger] s[j]),
        k > 0 ==> !is_trim_space(s[k - 1]),
    ensures
        spec_trim_end(s) == s.take(k),
    decreases s.len(),
{
    if k == s.len() {
        assert(s.take(k) =~= s);
    } else {
        assert(is_trim_space(s[s.len() - 1]));
        let t = s.take(s.len() - 1);
        assert(forall|j: int| k <= j < t.len() ==> is_trim_space(#[trigger] t[j]));
        lemma_trim_end_suffix(t, k);
        assert(t.take(k) =~= s.take(k));
    }
}

/// A freshly allocated copy of `s` with leading and trailing whitespace
/// removed.
pub fn trim_str(s: &str) -> (r: String)
    ensures
        r@ == spec_trim(s@),
{
    let n = s.unicode_len();
    let mut start: usize = 0;
    while start < n && char_is_trim_space(s.get_char(start))
        invariant
            0 <= start <= n,
            n == s@.len(),
            forall|j: int| 0 <= j < start ==> is_trim_space(#[trigger] s@[j]),
        decreases n - start,
    {
        start += 1;
    }
    let mut end: usize = n;
    while end > start && char_is_trim_space(s.get_char(end - 1))
        invariant
            start <= end <= n,
            n == s@.len(),
            forall|j: int| end <= j < n ==> is_trim_space(#[trigger] s@[j]),
        decreases end,
    {
        end -= 1;
    }
    proof {
        lemma_trim_start_prefix(s@, start as int);
        let t = s@.skip(start as int);
        assert(forall|j: int|
            end - start <= j < t.len() ==> is_trim_space(#[trigger] t[j])) by {
            assert(forall|j: int|
                end - start <= j < t.len() ==> #[trigger] t[j] == s@[j + start]);
        }
        lemma_trim_end_suffix(t, end - start);
        assert(t.take(end - start) =~= s@.subrange(start as int, end as int));
    }
    s.substring_char(start, end).to_owned()
}

/// `needle` occurs in `hay` starting at position `k`.
pub open spec fn is_match_at(hay: Seq<char>, needle: Seq<char>, k: int) -> bool {
    0 <= k && k + needle.len() <= hay.len() && hay.subrange(k, k + needle.len()) == needle
}

/// `needle` occurs somewhere in `hay`.
pub open spec fn contains_seq(hay: Seq<char>, needle: Seq<char>) -> bool {
    exists|k: int| is_match_at(hay, needle, k)
}

/// Substring search by character positions.
pub fn str_contains(hay: &str, needle: &str) -> (r: bool)
    ensures
        r == contains_seq(hay@, needle@),
{
    let hay_len = hay.unicode_len();
    let needle_len = needle.unicode_len();
    if needle_len > hay_len {
        return false;
    }
    let last = hay_len - needle_len;
    let mut k: usize = 0;
    while k <= last
        invariant
            0 <= k <= last + 1,
            last == hay@.len() - needle@.len(),
            hay_len == hay@.len(),
            needle_len == needle@.len(),
            forall|k2: int| 0 <= k2 < k ==> !is_match_at(hay@, needle@, k2),
        decreases last + 1 - k,
    {
        let mut j: usize = 0;
        let mut all_equal = true;
        while j < needle_len
            invariant
                0 <= j <= needle_len,
                k + needle_len <= hay_len,
                hay_len == hay@.len(),
                needle_len == needle@.len(),
                all_equal == forall|j2: int| 0 <= j2 < j ==> hay@[k + j2] == needle@[j2],
            decreases needle_len - j,
        {
            if hay.get_char(k + j) != needle.get_char(j) {
                all_equal = false;
                j = needle_len;
            } else {
                j += 1;
            }
        }
        if all_equal {
            proof {
                assert(hay@.subrange(k as int, k + needle@.len()) =~= needle@);
                assert(is_match_at(hay@, needle@, k as int));
            }
            return true;
        }
        proof {
            assert(!is_match_at(hay@, needle@, k as int)) by {
                let j2 = choose|j2: int| !(0 <= j2 < needle@.len()
                    ==> hay@[k + j2] == needle@[j2]);
                if is_match_at(hay@, needle@, k as int) {
                    assert(hay@.subrange(k as int, k + needle@.len())[j2] == needle@[j2]);
                }
            }
        }
        k += 1;
    }
    false
}

/// Character-for-character string equality.
pub fn str_eq(a: &str, b: &str) -> (r: bool)
    ensures
        r == (a@ == b@),
{
    let a_len = a.unicode_len();
    let b_len = b.unicode_len();
    if a_len != b_len {
        return false;
    }
    let mut i: usize = 0;
    while i < a_len
        invariant
            0 <= i <= a_len,
            a_len == a@.len(),
            a_len == b@.len(),
            forall|j: int| 0 <= j < i ==> a@[j] == #[trigger] b@[j],
        decreases a_len - i,
    {
        if a.get_char(i) != b.get_char(i) {
            return false;
        }
        i += 1;
    }
    proof {
        assert(a@ =~= b@);
    }
    true
}

/// `x` and `y` are the same letter up to ASCII case.
pub open spec fn char_eq_ignore_ascii_case(x: char, y: char) -> bool {
    ||| x == y
    ||| ('A' <= x <= 'Z' && y as u32 == x as u32 + 32)
    ||| ('A' <= y <= 'Z' && x as u32 == y as u32 + 32)
}

/// `a` and `b` are equal once ASCII letters are folded to one case.
pub open spec fn eq_ignore_ascii_case(a: Seq<char>, b: Seq<char>) -> bool {
    a.len() == b.len() && forall|i: int|
        0 <= i < a.len() ==> char_eq_ignore_ascii_case(a[i], #[trigger] b[i])
}

fn chars_eq_ignore_ascii_case(x: char, y: char) -> (r: bool)
    ensures
        r == char_eq_ignore_ascii_case(x, y),
{
    if x == y {
        return true;
    }
    let xu = x as u32;
    let yu = y as u32;
    ('A' as u32 <= xu && xu <= 'Z' as u32 && yu == xu + 32)
        || ('A' as u32 <= yu && yu <= 'Z' as u32 && xu == yu + 32)
}

/// Compare two strings, treating ASCII letters case-insensitively.
pub fn str_eq_ignore_ascii_case(a: &str, b: &str) -> (r: bool)
    ensures
        r == eq_ignore_ascii_case(a@, b@),
{
    let a_len = a.unicode_len();
    let b_len = b.unicode_len();
    if a_len != b_len {
        return false;
    }
    let mut i: usize = 0;
    while i < a_len
        invariant
            0 <= i <= a_len,
            a_len == a@.len(),
            a_len == b@.len(),
            forall|j: int| 0 <= j < i ==> char_eq_ignore_ascii_case(a@[j], #[trigger] b@[j]),
        decreases a_len - i,
    {
        if !chars_eq_ignore_ascii_case(a.get_char(i), b.get_char(i)) {
            return false;
        }
        i += 1;
    }
    true
}

/// The decimal digit character for a value below ten.
pub open spec fn spec_digit(d: int) -> char
    recommends
        0 <= d < 10,
{
    if d == 0 {
        '0'
    } else if d == 1 {
        '1'
    } else if d == 2 {
        '2'
    } else if d == 3 {
        '3'
    } else if d == 4 {
        '4'
    } else if d == 5 {
        '5'
    } else if d == 6 {
        '6'
    } else if d == 7 {
        '7'
    } else if d == 8 {
        '8'
    } else {
        '9'
    }
}

/// The usual decimal rendering of a nonnegative integer, most significant
/// digit first, no leading zeros except for zero itself.
pub open spec fn spec_decimal(n: int) -> Seq<char>
    recommends
        n >= 0,
    decreases n,
{
    if n < 10 {
        seq![spec_digit(n)]
    } else {
        spec_decimal(n / 10).push(spec_digit(n % 10))
    }
}

fn push_digit(out: &mut String, d: u64)
    requires
        d < 10,
    ensures
        final(out)@ == old(out)@ + seq![spec_digit(d as int)],
{
    proof {
        reveal_strlit("0");
        reveal_strlit("1");
        reveal_strlit("2");
        reveal_strlit("3");
        reveal_strlit("4");
        reveal_strlit("5");
        reveal_strlit("6");
        reveal_strlit("7");
        reveal_strlit("8");
        reveal_strlit("9");
    }
    if d == 0 {
        out.append("0");
        proof { assert("0"@ =~= seq![spec_digit(d as int)]); }
    } else if d == 1 {
        out.append("1");
        proof { assert("1"@ =~= seq![spec_digit(d as int)]); }
    } else if d == 2 {
        out.append("2");
        proof { assert("2"@ =~= seq![spec_digit(d as int)]); }
    } else if d == 3 {
        out.append("3");
        proof { assert("3"@ =~= seq![spec_digit(d as int)]); }
    } else if d == 4 {
        out.append("4");
        proof { assert("4"@ =~= seq![spec_digit(d as int)]); }
    } else if d == 5 {
        out.append("5");
        proof { assert("5"@ =~= seq![spec_digit(d as int)]); }
    } else if d == 6 {
        out.append("6");
        proof { assert("6"@ =~= seq![spec_digit(d as int)]); }
    } else if d == 7 {
        out.append("7");
        proof { assert("7"@ =~= seq![spec_digit(d as int)]); }
    } else if d == 8 {
        out.append("8");
        proof { assert("8"@ =~= seq![spec_digit(d as int)]); }
    } else {
        out.append("9");
        proof { assert("9"@ =~= seq![spec_digit(d as int)]); }
    }
}

fn push_decimal(out: &mut String, n: u64)
    ensures
        final(out)@ == old(out)@ + spec_decimal(n as int),
    decreases n,
{
    if n >= 10 {
        push_decimal(out, n / 10);
    }
    push_digit(out, n % 10);
    proof {
        if n >= 10 {
            assert(old(out)@ + spec_decimal(n as int / 10) + seq![spec_digit(n as int % 10)]
                =~= old(out)@ + spec_decimal(n as int));
        } else {
            assert(old(out)@ + seq![spec_digit(n as int)] =~= old(out)@ + spec_decimal(n as int));
        }
    }
}

/// Render `n` in decimal.
pub fn u64_to_decimal(n: u64) -> (r: String)
    ensures
        r@ == spec_decimal(n as int),
{
    let mut out = String::new();
    push_decimal(&mut out, n);
    proof {
        assert(Seq::<char>::empty() + spec_decimal(n as int) =~= spec_decimal(n as int));
    }
    out
}

} // verus!
