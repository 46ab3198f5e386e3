//! Small verified utilities over `&str` and `String`, used by the path
//! transforms, the locator, the dispatcher and the validator.
//!
//! All contracts are stated over `Seq<char>` views.
use vstd::prelude::*;
use vstd::string::StrSliceExecFns;
use vstd::string::StringExecFns;

verus! {

/// Holds when `suf` is a suffix of `s`.
pub open spec fn ends_with(s: Seq<char>, suf: Seq<char>) -> bool {
    suf.len() <= s.len() && s.subrange(s.len() - suf.len(), s.len() as int) == suf
}

/// Holds when `needle` occurs in `s` starting at index `k`.
pub open spec fn occurs_at(s: Seq<char>, needle: Seq<char>, k: int) -> bool {
    0 <= k && k + needle.len() <= s.len() && s.subrange(k, k + needle.len()) == needle
}

/// Holds when `needle` occurs somewhere in `s`.
pub open spec fn contains_seq(s: Seq<char>, needle: Seq<char>) -> bool {
    exists|k: int| occurs_at(s, needle, k)
}

/// Index of the last occurrence of `c` in `s`, or -1 when `c` does not occur.
pub open spec fn last_index_of(s: Seq<char>, c: char) -> int
    decreases s.len(),
{
    if s.len() == 0 {
        -1
    } else if s.last() == c {
        s.len() - 1
    } else {
        last_index_of(s.drop_last(), c)
    }
}

pub proof fn lemma_last_index_of(s: Seq<char>, c: char)
    ensures
        -1 <= last_index_of(s, c) < s.len(),
        last_index_of(s, c) >= 0 ==> s[last_index_of(s, c)] == c,
        forall|j: int| last_index_of(s, c) < j < s.len() ==> s[j] != c,
    decreases s.len(),
{
    if s.len() > 0 && s.last() != c {
        lemma_last_index_of(s.drop_last(), c);
        let d = last_index_of(s, c);
        if d >= 0 {
            assert(s.drop_last()[d] == s[d]);
        }
        assert forall|j: int| d < j < s.len() implies s[j] != c by {
            if j < s.len() - 1 {
                assert(s.drop_last()[j] == s[j]);
            }
        }
    }
}

/// Character-wise string equality, decided without any assumption on encoding.
pub fn str_eq(a: &str, b: &str) -> (r: bool)
    ensures
        r == (a@ == b@),
{
    let la = a.unicode_len();
    let lb = b.unicode_len();
    if la != lb {
        proof {
            assert(a@ != b@) by {
                assert(a@.len() != b@.len());
            }
        }
        return false;
    }
    let mut i: usize = 0;
    while i < la
        invariant
            la == a@.len(),
            la == b@.len(),
            i <= la,
            forall|k: int| 0 <= k < i ==> a@[k] == b@[k],
        decreases la - i,
    {
        if a.get_char(i) != b.get_char(i) {
            return false;
        }
        i = i + 1;
    }
    proof {
        assert(a@ =~= b@);
    }
    true
}

/// Decides whether `s` ends with `suf`.
pub fn ends_with_str(s: &str, suf: &str) -> (r: bool)
    ensures
        r == ends_with(s@, suf@),
{
    let ls = s.unicode_len();
    let lsuf = suf.unicode_len();
    if lsuf > ls {
        return false;
    }
    let tail = s.substring_char(ls - lsuf, ls);
    str_eq(tail, suf)
}

/// Decides whether `needle` occurs anywhere in `s`.
pub fn contains_str(s: &str, needle: &str) -> (r: bool)
    ensures
        r == contains_seq(s@, needle@),
{
    let ls = s.unicode_len();
    let ln = needle.unicode_len();
    if ln > ls {
        proof {
            assert(forall|k: int| !occurs_at(s@, needle@, k));
        }
        return false;
    }
    if ln == 0 {
        proof {
            assert(s@.subrange(0, 0) =~= needle@);
            assert(occurs_at(s@, needle@, 0));
        }
        return true;
    }
    let mut k: usize = 0;
    while k <= ls - ln
        invariant
            ls == s@.len(),
            ln == needle@.len(),
            1 <= ln <= ls,
            k <= ls - ln + 1,
            forall|j: int| 0 <= j < k ==> !occurs_at(s@, needle@, j),
        decreases ls - k,
    {
        proof {
            assert(k + ln <= ls);
        }
        let piece = s.substring_char(k, k + ln);
        if str_eq(piece, needle) {
            proof {
                assert(occurs_at(s@, needle@, k as int));
            }
            return true;
        }
        k = k + 1;
    }
    proof {
        assert(forall|j: int| occurs_at(s@, needle@, j) ==> 0 <= j <= s@.len() - needle@.len());
        assert(forall|j: int| !occurs_at(s@, needle@, j));
    }
    false
}

/// Index just past the last occurrence of `c`, or 0 when `c` does not occur.
pub fn find_after_last(s: &str, c: char) -> (r: usize)
    ensures
        r == last_index_of(s@, c) + 1,
{
    let ls = s.unicode_len();
    let mut i: usize = ls;
    while i > 0
        invariant
            ls == s@.len(),
            i <= ls,
            forall|j: int| i <= j < ls ==> s@[j] != c,
        decreases i,
    {
        if s.get_char(i - 1) == c {
            proof {
                lemma_last_index_of(s@, c);
            }
            return i;
        }
        i = i - 1;
    }
    proof {
        lemma_last_index_of(s@, c);
    }
    0
}

/// The characters that surrounding-whitespace trimming removes: the
/// Unicode White_Space set (the set `char::is_whitespace` recognizes).
pub open spec fn is_ws(c: char) -> bool {
    let u = c as u32;
    (0x9 <= u && u <= 0xD) || u == 0x20 || u == 0x85 || u == 0xA0 || u == 0x1680 || (0x2000 <= u
        && u <= 0x200A) || u == 0x2028 || u == 0x2029 || u == 0x202F || u == 0x205F || u == 0x3000
}

/// Index of the first non-whitespace character at or after `i`, or `s.len()`.
pub open spec fn first_non_ws(s: Seq<char>, i: int) -> int
    decreases s.len() - i,
{
    if i < 0 || i >= s.len() {
        s.len() as int
    } else if !is_ws(s[i]) {
        i
    } else {
        first_non_ws(s, i + 1)
    }
}

/// Index of the last non-whitespace character at or before `i`, or -1.
pub open spec fn last_non_ws(s: Seq<char>, i: int) -> int
    decreases i + 1,
{
    if i < 0 || i >= s.len() {
        -1
    } else if !is_ws(s[i]) {
        i
    } else {
        last_non_ws(s, i - 1)
    }
}

/// `s` with surrounding whitespace removed.
pub open spec fn trim_spec(s: Seq<char>) -> Seq<char> {
    let a = first_non_ws(s, 0);
    if a == s.len() {
        Seq::empty()
    } else {
        s.subrange(a, last_non_ws(s, s.len() - 1) + 1)
    }
}

/// Returns `s` with surrounding whitespace removed.
pub fn trim_str(s: &str) -> (r: &str)
    ensures
        r@ == trim_spec(s@),
{
    let len = s.unicode_len();
    let mut a: usize = 0;
    while a < len && is_ws_char(s.get_char(a))
        invariant
            len == s@.len(),
            a <= len,
            first_non_ws(s@, 0) == first_non_ws(s@, a as int),
        decreases len - a,
    {
        a = a + 1;
    }
    proof {
        assert(first_non_ws(s@, 0) == a as int);
    }
    if a == len {
        let r = s.substring_char(0, 0);
        proof {
            assert(r@ =~= trim_spec(s@));
        }
        return r;
    }
    let mut b: usize = len;
    while b > a && is_ws_char(s.get_char(b - 1))
        invariant
            len == s@.len(),
            a < len,
            a < b <= len,
            !is_ws(s@[a as int]),
            last_non_ws(s@, len - 1) == last_non_ws(s@, b - 1),
        decreases b,
    {
        b = b - 1;
    }
    proof {
        assert(b > a);
        assert(last_non_ws(s@, len - 1) == b - 1);
    }
    s.substring_char(a, b)
}

/// Decides whether `c` is whitespace for trimming purposes.
pub fn is_ws_char(c: char) -> (r: bool)
    ensures
        r == is_ws(c),
{
    let u = c as u32;
    (0x9 <= u && u <= 0xD) || u == 0x20 || u == 0x85 || u == 0xA0 || u == 0x1680 || (0x2000 <= u
        && u <= 0x200A) || u == 0x2028 || u == 0x2029 || u == 0x202F || u == 0x205F || u == 0x3000
}

/// Decides whether `a` and `b` are equal after surrounding whitespace is
/// removed from each.
pub fn eq_after_trim(a: &str, b: &str) -> (r: bool)
    ensures
        r == (trim_spec(a@) == trim_spec(b@)),
{
    str_eq(trim_str(a), trim_str(b))
}

/// Decimal digits of `n`, most significant first.
pub open spec fn dec_spec(n: nat) -> Seq<char>
    decreases n,
{
    if n < 10 {
        seq![digit_char(n)]
    } else {
        dec_spec(n / 10) + seq![digit_char(n % 10)]
    }
}

/// The character for a single decimal digit.
pub open spec fn digit_char(d: nat) -> char {
    if d == 0 {
        '0'
    } else if d == 1 {
        '1'
    } else if d == 2 {
        '2'
    } else if d == 3 {
        '3'
    } else if d == 4 {
        '4'
    } else if d == 5 {
        '5'
    } else if d == 6 {
        '6'
    } else if d == 7 {
        '7'
    } else if d == 8 {
        '8'
    } else {
        '9'
    }
}

pub fn digit_str(d: u64) -> (r: &'static str)
    requires
        d < 10,
    ensures
        r@ =~= seq![digit_char(d as nat)],
{
    proof {
        reveal_strlit("0");
        reveal_strlit("1");
        reveal_strlit("2");
        reveal_strlit("3");
        reveal_strlit("4");
        reveal_strlit("5");
        reveal_strlit("6");
        reveal_strlit("7");
        reveal_strlit("8");
        reveal_strlit("9");
    }
    if d == 0 {
        "0"
    } else if d == 1 {
        "1"
    } else if d == 2 {
        "2"
    } else if d == 3 {
        "3"
    } else if d == 4 {
        "4"
    } else if d == 5 {
        "5"
    } else if d == 6 {
        "6"
    } else if d == 7 {
        "7"
    } else if d == 8 {
        "8"
    } else {
        "9"
    }
}

/// Renders `n` in decimal.
pub fn u64_to_string(n: u64) -> (r: String)
    ensures
        r@ == dec_spec(n as nat),
{
    let mut acc = String::new();
    let mut m = n;
    proof {
        assert(dec_spec(n as nat) == dec_spec(m as nat) + acc@) by {
            assert(dec_spec(n as nat) + acc@ =~= dec_spec(n as nat));
        }
    }
    loop
        invariant_except_break
            m > 0 || acc@.len() == 0,
            dec_spec(n as nat) == dec_spec(m as nat) + acc@,
        ensures
            dec_spec(n as nat) == acc@,
        decreases m, (if acc@.len() == 0 { 1int } else { 0int }),
    {
        let d = m % 10;
        let rest = m / 10;
        let acc2 = String::from_str(digit_str(d)).concat(acc.as_str());
        proof {
            if rest == 0 {
                assert(dec_spec(m as nat) =~= seq![digit_char(d as nat)]);
                assert(acc2@ =~= dec_spec(m as nat) + acc@);
            } else {
                assert(dec_spec(m as nat) =~= dec_spec(rest as nat) + seq![digit_char((m % 10) as nat)]);
                assert(dec_spec(rest as nat) + acc2@ =~= dec_spec(m as nat) + acc@);
            }
        }
        acc = acc2;
        m = rest;
        if m == 0 {
            break;
        }
    }
    acc
}

} // verus!
