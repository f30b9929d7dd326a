//! Searching and cutting text, character by character.

use vstd::prelude::*;
use vstd::string::{StrSliceExecFns, StringExecFns};

verus! {

/// Whether `needle` stands in `hay` from character `i` on.
pub open spec fn occurs_at(hay: Seq<char>, needle: Seq<char>, i: int) -> bool {
    0 <= i && i + needle.len() <= hay.len() && hay.subrange(i, i + needle.len()) == needle
}

/// Whether `needle` stands somewhere in `hay`.
pub open spec fn occurs_in(hay: Seq<char>, needle: Seq<char>) -> bool {
    exists|i: int| occurs_at(hay, needle, i)
}

/// The first place at or after `from` where `needle` stands in `hay`.
pub open spec fn first_index_from(hay: Seq<char>, needle: Seq<char>, from: int) -> Option<int>
    decreases hay.len() - from + 1,
{
    if from < 0 || from + needle.len() > hay.len() {
        None
    } else if occurs_at(hay, needle, from) {
        Some(from)
    } else {
        first_index_from(hay, needle, from + 1)
    }
}

/// The first place where `needle` stands in `hay`.
pub open spec fn first_index_of(hay: Seq<char>, needle: Seq<char>) -> Option<int> {
    first_index_from(hay, needle, 0)
}

/// A search from `from` on finds the first place not before `from` where
/// the needle stands, and finds none only where there is none.
pub proof fn lemma_first_index_from(hay: Seq<char>, needle: Seq<char>, from: int)
    requires
        0 <= from,
    ensures
        match first_index_from(hay, needle, from) {
            Some(i) => from <= i && occurs_at(hay, needle, i) && forall|j: int|
                from <= j < i ==> !occurs_at(hay, needle, j),
            None => forall|j: int| from <= j ==> !occurs_at(hay, needle, j),
        },
    decreases hay.len() - from + 1,
{
    if from + needle.len() <= hay.len() && !occurs_at(hay, needle, from) {
        lemma_first_index_from(hay, needle, from + 1);
    }
}

/// [`first_index_of`] finds the first place where the needle stands, and
/// finds none exactly where the needle does not occur.
pub proof fn lemma_first_index_of(hay: Seq<char>, needle: Seq<char>)
    ensures
        first_index_of(hay, needle) is Some <==> occurs_in(hay, needle),
        first_index_of(hay, needle) matches Some(i) ==> occurs_at(hay, needle, i) && forall|j: int|
            j < i ==> !occurs_at(hay, needle, j),
{
    lemma_first_index_from(hay, needle, 0);
    if first_index_of(hay, needle) is None {
        assert forall|j: int| !occurs_at(hay, needle, j) by {}
    }
}

/// `s` without the characters `c` at its end.
pub open spec fn trim_end(s: Seq<char>, c: char) -> Seq<char>
    decreases s.len(),
{
    if s.len() > 0 && s.last() == c {
        trim_end(s.drop_last(), c)
    } else {
        s
    }
}

/// Whether `s` begins with `prefix`.
pub open spec fn starts_with(s: Seq<char>, prefix: Seq<char>) -> bool {
    prefix.len() <= s.len() && s.subrange(0, prefix.len() as int) == prefix
}

/// Whether `s` ends with `suffix`.
pub open spec fn ends_with(s: Seq<char>, suffix: Seq<char>) -> bool {
    suffix.len() <= s.len() && s.subrange(s.len() - suffix.len(), s.len() as int) == suffix
}

/// The characters of `s`.
pub fn chars_of(s: &str) -> (v: Vec<char>)
    ensures
        v@ == s@,
{
    let n = s.unicode_len();
    let mut v: Vec<char> = Vec::new();
    let mut i: usize = 0;
    while i < n
        invariant
            n == s@.len(),
            i <= n,
            v@ == s@.subrange(0, i as int),
        decreases n - i,
    {
        v.push(s.get_char(i));
        i = i + 1;
    }
    v
}

/// Whether `needle` stands in `hay` from character `at` on.
pub fn matches_at(hay: &Vec<char>, needle: &Vec<char>, at: usize) -> (b: bool)
    ensures
        b == occurs_at(hay@, needle@, at as int),
{
    if needle.len() > hay.len() || at > hay.len() - needle.len() {
        return false;
    }
    let mut k: usize = 0;
    while k < needle.len()
        invariant
            k <= needle@.len(),
            at + needle@.len() <= hay@.len() <= usize::MAX,
            forall|j: int| 0 <= j < k ==> hay@[at + j] == needle@[j],
        decreases needle@.len() - k,
    {
        if hay[at + k] != needle[k] {
            return false;
        }
        k = k + 1;
    }
    assert(hay@.subrange(at as int, at + needle@.len()) =~= needle@);
    true
}

/// The first place where `needle` stands in `hay`, counted in characters.
pub fn find_chars(hay: &Vec<char>, needle: &Vec<char>) -> (r: Option<usize>)
    ensures
        match r {
            Some(i) => first_index_of(hay@, needle@) == Some(i as int) && occurs_at(
                hay@,
                needle@,
                i as int,
            ),
            None => first_index_of(hay@, needle@) is None,
        },
{
    if needle.len() > hay.len() {
        return None;
    }
    let last = hay.len() - needle.len();
    let mut i: usize = 0;
    while i < last
        invariant
            last == hay@.len() - needle@.len(),
            i <= last,
            first_index_of(hay@, needle@) == first_index_from(hay@, needle@, i as int),
        decreases last - i,
    {
        if matches_at(hay, needle, i) {
            return Some(i);
        }
        i = i + 1;
    }
    if matches_at(hay, needle, last) {
        Some(last)
    } else {
        assert(first_index_from(hay@, needle@, last + 1) is None);
        None
    }
}

/// The first place where `needle` stands in `hay`, counted in characters:
/// it stands there and nowhere before. `None` where it stands nowhere.
pub fn find(hay: &str, needle: &str) -> (r: Option<usize>)
    ensures
        match r {
            Some(i) => {
                &&& first_index_of(hay@, needle@) == Some(i as int)
                &&& occurs_at(hay@, needle@, i as int)
                &&& forall|j: int| j < i ==> !occurs_at(hay@, needle@, j)
            },
            None => first_index_of(hay@, needle@) is None && !occurs_in(hay@, needle@),
        },
{
    proof {
        lemma_first_index_of(hay@, needle@);
    }
    let h = chars_of(hay);
    let n = chars_of(needle);
    find_chars(&h, &n)
}

/// Whether `needle` stands somewhere in `hay`.
pub fn contains(hay: &str, needle: &str) -> (b: bool)
    ensures
        b == occurs_in(hay@, needle@),
{
    find(hay, needle).is_some()
}

/// The length of the first `upto` characters of `s` once the characters
/// `c` at their end are cut off.
pub fn trimmed_len(s: &Vec<char>, upto: usize, c: char) -> (n: usize)
    requires
        upto <= s@.len(),
    ensures
        n <= upto,
        s@.subrange(0, n as int) == trim_end(s@.subrange(0, upto as int), c),
{
    let mut n: usize = upto;
    while n > 0 && s[n - 1] == c
        invariant
            n <= upto <= s@.len(),
            trim_end(s@.subrange(0, upto as int), c) == trim_end(s@.subrange(0, n as int), c),
        decreases n,
    {
        assert(s@.subrange(0, n as int).drop_last() =~= s@.subrange(0, n - 1));
        n = n - 1;
    }
    n
}

/// The path `rel` below the directory `dir`: the two joined by one `/`.
/// Where one of them is empty it is the other.
pub open spec fn joined(dir: Seq<char>, rel: Seq<char>) -> Seq<char> {
    if rel.len() == 0 {
        dir
    } else if dir.len() == 0 {
        rel
    } else if dir.last() == '/' {
        dir + rel
    } else {
        dir + seq!['/'] + rel
    }
}

/// The path `rel` below the directory `dir`.
pub fn join_path(dir: &str, rel: &str) -> (s: String)
    ensures
        s@ == joined(dir@, rel@),
{
    let n = dir.unicode_len();
    if rel.unicode_len() == 0 {
        String::from_str(dir)
    } else if n == 0 {
        String::from_str(rel)
    } else if dir.get_char(n - 1) == '/' {
        concat(dir, rel)
    } else {
        proof {
            reveal_strlit("/");
        }
        let s = concat3(dir, "/", rel);
        s
    }
}

/// `a` followed by `b`.
pub fn concat(a: &str, b: &str) -> (s: String)
    ensures
        s@ == a@ + b@,
{
    let mut s = String::from_str(a);
    s.append(b);
    s
}

/// `a`, then `b`, then `c`.
pub fn concat3(a: &str, b: &str, c: &str) -> (s: String)
    ensures
        s@ == a@ + b@ + c@,
{
    let mut s = String::from_str(a);
    s.append(b);
    s.append(c);
    s
}

/// The decimal digit of value `d`.
pub open spec fn dec_digit(d: int) -> char
    recommends
        0 <= d < 10,
{
    "0123456789"@[d]
}

/// `n` in decimal, without leading zeros.
pub open spec fn dec_digits(n: nat) -> Seq<char>
    decreases n,
{
    if n < 10 {
        seq![dec_digit(n as int)]
    } else {
        dec_digits(n / 10).push(dec_digit((n % 10) as int))
    }
}

/// Appends `n` in decimal to `out`.
pub fn push_decimal(out: &mut String, n: u64)
    ensures
        final(out)@ == old(out)@ + dec_digits(n as nat),
    decreases n,
{
    if n >= 10 {
        push_decimal(out, n / 10);
    }
    proof {
        reveal_strlit("0123456789");
    }
    let d = (n % 10) as usize;
    let digit = "0123456789".substring_ascii(d, d + 1);
    out.append(digit);
}

/// The value of the decimal digit `c`; `None` for any other character.
pub open spec fn digit_value(c: char) -> Option<nat> {
    if '0' <= c <= '9' {
        Some((c as int - '0' as int) as nat)
    } else {
        None
    }
}

/// The number that the decimal digits `s` spell; `None` where `s` is empty
/// or holds anything but digits.
pub open spec fn digits_value(s: Seq<char>) -> Option<nat>
    decreases s.len(),
{
    if s.len() == 0 {
        None
    } else {
        match digit_value(s.last()) {
            None => None,
            Some(d) => if s.len() == 1 {
                Some(d)
            } else {
                match digits_value(s.drop_last()) {
                    None => None,
                    Some(v) => Some(v * 10 + d),
                }
            },
        }
    }
}

/// The number that `s` spells as an unsigned 64-bit integer: decimal
/// digits, with or without a `+` before them, whose value fits.
pub open spec fn parsed_u64(s: Seq<char>) -> Option<u64> {
    let digits = if s.len() > 0 && s[0] == '+' {
        s.drop_first()
    } else {
        s
    };
    match digits_value(digits) {
        Some(v) => if v <= u64::MAX {
            Some(v as u64)
        } else {
            None
        },
        None => None,
    }
}

/// Digits spell no smaller a number than their first `k` do; and where
/// these spell none, neither do all.
proof fn lemma_digits_value_grows(s: Seq<char>, k: int)
    requires
        1 <= k <= s.len(),
    ensures
        digits_value(s.subrange(0, k)) is None ==> digits_value(s) is None,
        digits_value(s) matches Some(v) ==> digits_value(s.subrange(0, k)) matches Some(p) && p
            <= v,
    decreases s.len(),
{
    if k < s.len() {
        lemma_digits_value_grows(s.drop_last(), k);
        assert(s.drop_last().subrange(0, k) =~= s.subrange(0, k));
    } else {
        assert(s.subrange(0, k) =~= s);
    }
}

/// Reads an unsigned 64-bit integer written in decimal.
pub fn parse_u64(s: &str) -> (r: Option<u64>)
    ensures
        r == parsed_u64(s@),
{
    let chars = chars_of(s);
    let n = chars.len();
    let start: usize = if n > 0 && chars[0] == '+' {
        1
    } else {
        0
    };
    let ghost digits = chars@.subrange(start as int, n as int);
    if start >= n {
        return None;
    }
    let mut value: u64 = 0;
    let mut i: usize = start;
    while i < n
        invariant
            start <= i <= n,
            start < n,
            n == chars@.len(),
            digits == chars@.subrange(start as int, n as int),
            digits == if s@.len() > 0 && s@[0] == '+' {
                s@.drop_first()
            } else {
                s@
            },
            i == start ==> value == 0,
            i > start ==> digits_value(digits.subrange(0, i - start)) == Some(value as nat),
        decreases n - i,
    {
        let c = chars[i];
        let ghost upto = digits.subrange(0, i - start + 1);
        assert(upto.drop_last() =~= digits.subrange(0, i - start));
        if !('0' <= c && c <= '9') {
            proof {
                lemma_digits_value_grows(digits, i - start + 1);
            }
            return None;
        }
        let d = (c as u32 - '0' as u32) as u64;
        if value > (u64::MAX - d) / 10 {
            proof {
                lemma_digits_value_grows(digits, i - start + 1);
            }
            return None;
        }
        value = value * 10 + d;
        i = i + 1;
    }
    assert(digits.subrange(0, n - start) =~= digits);
    Some(value)
}

} // verus!
