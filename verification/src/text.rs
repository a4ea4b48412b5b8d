//! Character-level text helpers: equality, substring search, and decimal
//! parsing, each specified over the character view of the string.

use vstd::prelude::*;

verus! {

/// A decimal digit.
pub open spec fn is_digit(c: char) -> bool {
    48 <= c as u32 <= 57
}

/// Numeric value of one digit.
pub open spec fn digit_val(c: char) -> int {
    c as u32 as int - 48
}

/// Every character is a decimal digit.
pub open spec fn all_digits(s: Seq<char>) -> bool {
    forall|i: int| 0 <= i < s.len() ==> is_digit(#[trigger] s[i])
}

/// Value of a digit string read most-significant first.
pub open spec fn digits_val(s: Seq<char>) -> int
    decreases s.len(),
{
    if s.len() == 0 {
        0
    } else {
        digits_val(s.drop_last()) * 10 + digit_val(s.last())
    }
}

pub proof fn lemma_digits_val_nonneg(s: Seq<char>)
    requires
        all_digits(s),
    ensures
        digits_val(s) >= 0,
    decreases s.len(),
{
    if s.len() > 0 {
        assert(all_digits(s.drop_last()));
        lemma_digits_val_nonneg(s.drop_last());
    }
}

pub proof fn lemma_digits_val_push(s: Seq<char>, c: char)
    ensures
        digits_val(s.push(c)) == digits_val(s) * 10 + digit_val(c),
{
    assert(s.push(c).drop_last() =~= s);
    assert(s.push(c).last() == c);
}

/// The signed integer a string denotes: an optional sign followed by at
/// least one digit, as the standard library's integer parsing accepts.
pub open spec fn int_value_of(s: Seq<char>) -> Option<int> {
    if s.len() > 0 && (s[0] == '-' || s[0] == '+') {
        let mag = s.subrange(1, s.len() as int);
        if mag.len() > 0 && all_digits(mag) {
            if s[0] == '-' {
                Some(-digits_val(mag))
            } else {
                Some(digits_val(mag))
            }
        } else {
            None
        }
    } else {
        if s.len() > 0 && all_digits(s) {
            Some(digits_val(s))
        } else {
            None
        }
    }
}

/// What parsing a string as an `i32` yields: the denoted value when there is
/// one and it fits, nothing otherwise.
pub open spec fn spec_parse_i32(s: Seq<char>) -> Option<i32> {
    match int_value_of(s) {
        Some(v) => if i32::MIN <= v <= i32::MAX {
            Some(v as i32)
        } else {
            None
        },
        None => None,
    }
}

/// Parse a decimal `i32` with optional sign, rejecting any other character
/// and any value out of range.
pub fn parse_i32(s: &str) -> (r: Option<i32>)
    ensures
        r == spec_parse_i32(s@),
{
    let n = s.unicode_len();
    if n == 0 {
        return None;
    }
    let c0 = s.get_char(0);
    let mut start: usize = 0;
    let mut neg = false;
    if c0 == '-' {
        neg = true;
        start = 1;
    } else if c0 == '+' {
        start = 1;
    }
    if start == n {
        return None;
    }
    let ghost mag = s@.subrange(start as int, n as int);
    let mut i = start;
    let mut acc: u64 = 0;
    while i < n
        invariant
            start <= i <= n,
            n == s@.len(),
            start <= 1,
            start < n,
            start == 1 ==> (s@[0] == '-' || s@[0] == '+'),
            start == 0 ==> !(s@[0] == '-' || s@[0] == '+'),
            neg <==> (start == 1 && s@[0] == '-'),
            all_digits(s@.subrange(start as int, i as int)),
            acc <= 0x8000_0000 ==> acc == digits_val(s@.subrange(start as int, i as int)),
            acc > 0x8000_0000 ==> digits_val(s@.subrange(start as int, i as int)) > 0x8000_0000,
            acc <= 0x5_0000_000A,
        decreases n - i,
    {
        let c = s.get_char(i);
        let u = c as u32;
        if u < 48 || u > 57 {
            proof {
                assert(!is_digit(s@[i as int]));
                if start == 1 {
                    assert(0 <= i - 1 < s@.subrange(1, n as int).len());
                    assert(s@.subrange(1, n as int)[i - 1] == s@[i as int]);
                    assert(!all_digits(s@.subrange(1, n as int)));
                } else {
                    assert(s@.subrange(0, n as int) =~= s@);
                    assert(!all_digits(s@));
                }
            }
            return None;
        }
        let d = (u - 48) as u64;
        proof {
            let pfx = s@.subrange(start as int, i as int);
            assert(s@.subrange(start as int, i + 1) =~= pfx.push(s@[i as int]));
            lemma_digits_val_push(pfx, s@[i as int]);
            assert(all_digits(pfx.push(s@[i as int])));
            if acc > 0x8000_0000 {
                lemma_digits_val_nonneg(pfx);
            }
        }
        if acc <= 0x8000_0000 {
            acc = acc * 10 + d;
        }
        i += 1;
    }
    proof {
        assert(s@.subrange(start as int, n as int) == mag);
        if start == 0 {
            assert(s@.subrange(0, n as int) =~= s@);
        }
        if acc <= 0x8000_0000 {
            lemma_digits_val_nonneg(mag);
        }
    }
    if neg {
        if acc <= 0x8000_0000 {
            Some((-(acc as i64)) as i32)
        } else {
            None
        }
    } else {
        if acc <= 0x7FFF_FFFF {
            Some(acc as i32)
        } else {
            None
        }
    }
}

/// Character-for-character string equality.
pub fn str_eq(a: &str, b: &str) -> (r: bool)
    ensures
        r == (a@ == b@),
{
    let n = a.unicode_len();
    if n != b.unicode_len() {
        return false;
    }
    let mut i: usize = 0;
    while i < n
        invariant
            0 <= i <= n,
            n == a@.len(),
            n == b@.len(),
            forall|j: int| 0 <= j < i ==> a@[j] == b@[j],
        decreases n - i,
    {
        if a.get_char(i) != b.get_char(i) {
            return false;
        }
        i += 1;
    }
    proof {
        assert(a@ =~= b@);
    }
    true
}

/// `word` occurs in `text` starting at position `i`.
pub open spec fn matches_at(text: Seq<char>, word: Seq<char>, i: int) -> bool {
    0 <= i && i + word.len() <= text.len() && text.subrange(i, i + word.len()) == word
}

/// `word` occurs somewhere in `text`.
pub open spec fn contains_word(text: Seq<char>, word: Seq<char>) -> bool {
    exists|i: int| matches_at(text, word, i)
}

/// `word` laid against `text` at position `i`, compared character by
/// character.
fn match_at(text: &str, word: &str, i: usize) -> (r: bool)
    requires
        i + word@.len() <= text@.len(),
        text@.len() <= usize::MAX,
    ensures
        r == matches_at(text@, word@, i as int),
{
    let m = word.unicode_len();
    let mut k: usize = 0;
    while k < m
        invariant
            0 <= k <= m,
            m == word@.len(),
            i + m <= text@.len(),
            text@.len() <= usize::MAX,
            forall|t: int| 0 <= t < k ==> text@[i + t] == word@[t],
        decreases m - k,
    {
        if text.get_char(i + k) != word.get_char(k) {
            proof {
                if text@.subrange(i as int, i + m) == word@ {
                    assert(text@.subrange(i as int, i + m)[k as int] == text@[i + k]);
                }
            }
            return false;
        }
        k += 1;
    }
    proof {
        assert(text@.subrange(i as int, i + m) =~= word@);
    }
    true
}

/// Substring search, specified as: some position of `text` carries `word`.
pub fn contains_sub(text: &str, word: &str) -> (r: bool)
    ensures
        r == contains_word(text@, word@),
{
    let n = text.unicode_len();
    let m = word.unicode_len();
    if m > n {
        proof {
            assert forall|i: int| !matches_at(text@, word@, i) by {}
        }
        return false;
    }
    let limit: usize = n - m;
    let mut i: usize = 0;
    loop
        invariant
            0 <= i <= limit,
            limit == n - m,
            m <= n,
            n == text@.len(),
            m == word@.len(),
            forall|j: int| 0 <= j < i ==> !matches_at(text@, word@, j),
        decreases limit - i,
    {
        if match_at(text, word, i) {
            return true;
        }
        if i == limit {
            proof {
                assert forall|j: int| !matches_at(text@, word@, j) by {
                    if 0 <= j <= i {
                    } else if j > i {
                        assert(j + word@.len() > text@.len());
                    }
                }
            }
            return false;
        }
        i += 1;
    }
}

} // verus!
