//! Strings, by their characters: comparing, joining, splitting and reading
//! numbers.

use vstd::prelude::*;
use vstd::string::{StrSliceExecFns, StringExecFns};

verus! {

/// The value of a decimal digit.
pub open spec fn digit_value(c: char) -> Option<int> {
    match c {
        '0' => Some(0),
        '1' => Some(1),
        '2' => Some(2),
        '3' => Some(3),
        '4' => Some(4),
        '5' => Some(5),
        '6' => Some(6),
        '7' => Some(7),
        '8' => Some(8),
        '9' => Some(9),
        _ => None,
    }
}

/// Whether a string is a decimal number: one digit or more, and nothing
/// else.
pub open spec fn is_decimal(s: Seq<char>) -> bool {
    s.len() > 0 && forall|i: int| 0 <= i < s.len() ==> digit_value(#[trigger] s[i]) is Some
}

/// The number that a string of digits stands for.
pub open spec fn decimal_value(s: Seq<char>) -> int
    decreases s.len(),
{
    if s.len() == 0 {
        0
    } else {
        decimal_value(s.drop_last()) * 10 + match digit_value(s.last()) {
            Some(d) => d,
            None => 0,
        }
    }
}

/// The number that a string stands for, where it is a decimal number that
/// fits in 32 bits. Neither a sign nor a space is taken.
pub open spec fn decimal_u32(s: Seq<char>) -> Option<u32> {
    if is_decimal(s) && decimal_value(s) <= u32::MAX {
        Some(decimal_value(s) as u32)
    } else {
        None
    }
}

/// Whether a string looks like a flag: it begins with a hyphen and goes on.
pub open spec fn is_flag_like(s: Seq<char>) -> bool {
    s.len() > 1 && s[0] == '-'
}

/// The place of the first occurrence of a character, if there is one.
pub open spec fn first_index_of(s: Seq<char>, c: char) -> Option<int> {
    if exists|i: int| 0 <= i < s.len() && s[i] == c {
        Some(
            choose|i: int|
                0 <= i < s.len() && s[i] == c && forall|j: int| 0 <= j < i ==> s[j] != c,
        )
    } else {
        None
    }
}

/// What stands before the first occurrence of a character and what stands
/// behind it, if the string has the character.
pub open spec fn split_at_first(s: Seq<char>, c: char) -> Option<(Seq<char>, Seq<char>)> {
    match first_index_of(s, c) {
        Some(i) => Some((s.subrange(0, i), s.subrange(i + 1, s.len() as int))),
        None => None,
    }
}

/// A longer string of digits stands for no smaller number than its
/// beginning.
pub proof fn lemma_decimal_value_grows(s: Seq<char>, n: int)
    requires
        0 <= n <= s.len(),
    ensures
        0 <= decimal_value(s.take(n)) <= decimal_value(s),
    decreases s.len(),
{
    if n == s.len() {
        assert(s.take(n) =~= s);
        lemma_decimal_value_nonnegative(s);
    } else {
        lemma_decimal_value_grows(s.drop_last(), n);
        assert(s.drop_last().take(n) =~= s.take(n));
    }
}

/// A string of digits stands for no negative number.
pub proof fn lemma_decimal_value_nonnegative(s: Seq<char>)
    ensures
        0 <= decimal_value(s),
    decreases s.len(),
{
    if s.len() > 0 {
        lemma_decimal_value_nonnegative(s.drop_last());
    }
}

/// The first occurrence of a character is where the character stands with
/// none before it.
pub proof fn lemma_first_index_of(s: Seq<char>, c: char, i: int)
    requires
        0 <= i < s.len(),
        s[i] == c,
        forall|j: int| 0 <= j < i ==> s[j] != c,
    ensures
        first_index_of(s, c) == Some(i),
{
    let k = choose|k: int|
        0 <= k < s.len() && s[k] == c && forall|j: int| 0 <= j < k ==> s[j] != c;
    if k < i {
        assert(s[k] != c);
    } else if i < k {
        assert(s[i] != c);
    }
}

/// Whether two strings hold the same characters.
pub fn str_eq(a: &str, b: &str) -> (r: bool)
    ensures
        r == (a@ == b@),
{
    a.to_owned() == b.to_owned()
}

/// Two strings, one behind the other.
pub fn followed_by(a: &str, b: &str) -> (r: String)
    ensures
        r@ == a@ + b@,
{
    let mut joined = a.to_owned();
    joined.append(b);
    joined
}

/// Whether a string looks like a flag: it begins with a hyphen and goes on.
pub fn looks_like_flag(s: &str) -> (r: bool)
    ensures
        r == is_flag_like(s@),
{
    s.unicode_len() > 1 && s.get_char(0) == '-'
}

/// The value of a decimal digit.
pub fn digit(c: char) -> (r: Option<u64>)
    ensures
        r is Some <==> digit_value(c) is Some,
        r matches Some(d) ==> digit_value(c) == Some(d as int) && d <= 9,
{
    match c {
        '0' => Some(0),
        '1' => Some(1),
        '2' => Some(2),
        '3' => Some(3),
        '4' => Some(4),
        '5' => Some(5),
        '6' => Some(6),
        '7' => Some(7),
        '8' => Some(8),
        '9' => Some(9),
        _ => None,
    }
}

/// The number that a string stands for, where it is a decimal number that
/// fits in 32 bits.
pub fn parse_u32(s: &str) -> (r: Option<u32>)
    ensures
        r == decimal_u32(s@),
{
    let n = s.unicode_len();
    if n == 0 {
        return None;
    }
    let mut value: u64 = 0;
    let mut i: usize = 0;
    while i < n
        invariant
            i <= n,
            n == s@.len(),
            value == decimal_value(s@.take(i as int)),
            value <= u32::MAX,
            forall|j: int| 0 <= j < i ==> digit_value(#[trigger] s@[j]) is Some,
        decreases n - i,
    {
        let c = s.get_char(i);
        proof {
            let next = s@.take(i + 1);
            assert(next.drop_last() =~= s@.take(i as int));
            assert(next.last() == s@[i as int]);
        }
        match digit(c) {
            None => {
                return None;
            },
            Some(d) => {
                value = value * 10 + d;
                if value > 0xffff_ffff {
                    proof {
                        lemma_decimal_value_grows(s@, i + 1);
                    }
                    return None;
                }
            },
        }
        i = i + 1;
    }
    proof {
        assert(s@.take(n as int) =~= s@);
    }
    Some(value as u32)
}

/// What stands before the first occurrence of a character and what stands
/// behind it, if the string has the character.
pub fn split_once(s: &str, c: char) -> (r: Option<(String, String)>)
    ensures
        r is Some <==> split_at_first(s@, c) is Some,
        r matches Some(parts) ==> split_at_first(s@, c) == Some((parts.0@, parts.1@)),
{
    let n = s.unicode_len();
    let mut i: usize = 0;
    while i < n
        invariant
            i <= n,
            n == s@.len(),
            forall|j: int| 0 <= j < i ==> s@[j] != c,
        decreases n - i,
    {
        if s.get_char(i) == c {
            proof {
                lemma_first_index_of(s@, c, i as int);
            }
            let before = s.substring_char(0, i).to_owned();
            let behind = s.substring_char(i + 1, n).to_owned();
            return Some((before, behind));
        }
        i = i + 1;
    }
    None
}

} // verus!
