//! Character-level string utilities: substring containment, string equality,
//! report assembly helpers, and decimal rendering of small integers.

use vstd::prelude::*;
use vstd::string::StrSliceExecFns;
use vstd::string::StringExecFns;

verus! {

/// `needle` occurs at position `i` of `hay`.
pub open spec fn matches_at(hay: Seq<char>, needle: Seq<char>, i: int) -> bool {
    &&& 0 <= i
    &&& i + needle.len() <= hay.len()
    &&& hay.subrange(i, i + needle.len() as int) == needle
}

/// `needle` occurs as a contiguous run of characters somewhere in `hay`.
pub open spec fn contains_seq(hay: Seq<char>, needle: Seq<char>) -> bool {
    exists|i: int| matches_at(hay, needle, i)
}

fn eq_at(hay: &str, needle: &str, i: usize) -> (r: bool)
    requires
        hay@.len() <= usize::MAX,
        i + needle@.len() <= hay@.len(),
    ensures
        r == matches_at(hay@, needle@, i as int),
{
    let m = needle.unicode_len();
    let mut j: usize = 0;
    while j < m
        invariant
            m == needle@.len(),
            i + m <= hay@.len() <= usize::MAX,
            j <= m,
            forall|t: int| 0 <= t < j ==> hay@[i + t] == needle@[t],
        decreases m - j,
    {
        if hay.get_char(i + j) != needle.get_char(j) {
            assert(!matches_at(hay@, needle@, i as int)) by {
                if hay@.subrange(i as int, i + needle@.len() as int) == needle@ {
                    assert(hay@.subrange(i as int, i + needle@.len() as int)[j as int]
                        == needle@[j as int]);
                }
            }
            return false;
        }
        j += 1;
    }
    assert(hay@.subrange(i as int, i + needle@.len() as int) =~= needle@);
    true
}

/// Substring search: whether `needle` occurs anywhere in `hay`.
pub fn str_contains(hay: &str, needle: &str) -> (r: bool)
    ensures
        r == contains_seq(hay@, needle@),
{
    let n = hay.unicode_len();
    let m = needle.unicode_len();
    if m > n {
        assert(!contains_seq(hay@, needle@)) by {
            if contains_seq(hay@, needle@) {
                let k = choose|k: int| matches_at(hay@, needle@, k);
            }
        }
        return false;
    }
    if m == 0 {
        assert(hay@.subrange(0, 0) =~= needle@);
        assert(matches_at(hay@, needle@, 0));
        return true;
    }
    let mut i: usize = 0;
    while i <= n - m
        invariant
            n == hay@.len(),
            m == needle@.len(),
            1 <= m <= n <= usize::MAX,
            i <= n - m + 1,
            forall|k: int| 0 <= k < i ==> !matches_at(hay@, needle@, k),
        decreases n - m - i + 1,
    {
        if eq_at(hay, needle, i) {
            assert(contains_seq(hay@, needle@));
            return true;
        }
        i += 1;
    }
    assert(!contains_seq(hay@, needle@)) by {
        if contains_seq(hay@, needle@) {
            let k = choose|k: int| matches_at(hay@, needle@, k);
        }
    }
    false
}

/// Character-for-character string equality.
pub fn str_eq(a: &str, b: &str) -> (r: bool)
    ensures
        r == (a@ == b@),
{
    let n = a.unicode_len();
    let m = b.unicode_len();
    if n != m {
        return false;
    }
    let mut i: usize = 0;
    while i < n
        invariant
            n == a@.len(),
            n == b@.len(),
            i <= n,
            forall|t: int| 0 <= t < i ==> a@[t] == b@[t],
        decreases n - i,
    {
        if a.get_char(i) != b.get_char(i) {
            return false;
        }
        i += 1;
    }
    assert(a@ =~= b@);
    true
}

/// Anything contained in `a` is contained in `a + b`.
pub proof fn lemma_append_keeps_contains(a: Seq<char>, b: Seq<char>)
    ensures
        forall|n: Seq<char>| #[trigger] contains_seq(a, n) ==> contains_seq(a + b, n),
{
    assert forall|n: Seq<char>| #[trigger] contains_seq(a, n) implies contains_seq(a + b, n) by {
        let i = choose|i: int| matches_at(a, n, i);
        assert((a + b).subrange(i, i + n.len() as int) =~= a.subrange(i, i + n.len() as int));
        assert(matches_at(a + b, n, i));
    }
}

/// A concatenation contains its right part.
pub proof fn lemma_concat_contains_right(a: Seq<char>, b: Seq<char>)
    ensures
        contains_seq(a + b, b),
{
    assert((a + b).subrange(a.len() as int, a.len() + b.len() as int) =~= b);
    assert(matches_at(a + b, b, a.len() as int));
}

/// Appends one part to a report under construction, keeping track of
/// everything the report already contains.
pub fn push_part(s: &mut String, part: &str)
    ensures
        final(s)@ == old(s)@ + part@,
        contains_seq(final(s)@, part@),
        forall|n: Seq<char>| #[trigger] contains_seq(old(s)@, n) ==> contains_seq(final(s)@, n),
{
    let ghost pre = s@;
    s.append(part);
    proof {
        lemma_append_keeps_contains(pre, part@);
        lemma_concat_contains_right(pre, part@);
    }
}

/// Appends a `key: value` line; the report then contains the whole line,
/// and the bare key, and everything it contained before.
pub fn push_kv(s: &mut String, key: &str, value: &str)
    ensures
        final(s)@ == old(s)@ + key@ + value@ + "\n"@,
        contains_seq(final(s)@, key@),
        contains_seq(final(s)@, key@ + value@ + "\n"@),
        forall|n: Seq<char>| #[trigger] contains_seq(old(s)@, n) ==> contains_seq(final(s)@, n),
{
    let ghost pre = s@;
    s.append(key);
    s.append(value);
    s.append("\n");
    proof {
        let w = key@ + value@ + "\n"@;
        assert(s@ =~= pre + w);
        lemma_append_keeps_contains(pre, w);
        lemma_concat_contains_right(pre, w);
        assert(s@.subrange(pre.len() as int, pre.len() + key@.len() as int) =~= key@);
        assert(matches_at(s@, key@, pre.len() as int));
    }
}

/// The decimal digit character for `d`.
pub open spec fn dec_digit(d: int) -> char {
    ((48 + d) as u8) as char
}

/// Decimal rendering of an integer in `0 ..= 255`, without leading zeroes.
pub open spec fn dec_str(n: int) -> Seq<char> {
    if n < 10 {
        seq![dec_digit(n)]
    } else if n < 100 {
        seq![dec_digit(n / 10), dec_digit(n % 10)]
    } else {
        seq![dec_digit(n / 100), dec_digit((n / 10) % 10), dec_digit(n % 10)]
    }
}

fn digit_str(d: u8) -> (r: &'static str)
    requires
        d < 10,
    ensures
        r@ == seq![dec_digit(d as int)],
{
    proof {
        reveal_strlit("0");
        reveal_strlit("1");
        reveal_strlit("2");
        reveal_strlit("3");
        reveal_strlit("4");
        reveal_strlit("5");
        reveal_strlit("6");
        reveal_strlit("7");
        reveal_strlit("8");
        reveal_strlit("9");
    }
    let r = match d {
        0 => "0",
        1 => "1",
        2 => "2",
        3 => "3",
        4 => "4",
        5 => "5",
        6 => "6",
        7 => "7",
        8 => "8",
        _ => "9",
    };
    assert(r@ =~= seq![dec_digit(d as int)]);
    r
}

/// Renders `n` in decimal.
#[verifier::rlimit(50)]
pub fn u8_to_string(n: u8) -> (s: String)
    ensures
        s@ == dec_str(n as int),
{
    let mut s = String::new();
    if n < 10 {
        s.append(digit_str(n));
        assert(s@ =~= dec_str(n as int));
    } else if n < 100 {
        s.append(digit_str(n / 10));
        s.append(digit_str(n % 10));
        assert(s@ =~= dec_str(n as int));
    } else {
        s.append(digit_str(n / 100));
        s.append(digit_str((n / 10) % 10));
        s.append(digit_str(n % 10));
        assert(s@ =~= dec_str(n as int));
    }
    s
}

} // verus!
