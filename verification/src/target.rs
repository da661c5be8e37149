//! The target specification `USER[:GROUP]` and the numeric identifiers in it.

use vstd::prelude::*;

verus! {

/// Whether `c` is one of the ten ASCII decimal digits.
pub open spec fn is_digit(c: char) -> bool {
    '0' <= c && c <= '9'
}

/// The number that the digit `c` stands for.
pub open spec fn digit_value(c: char) -> nat
    recommends
        is_digit(c),
{
    (c as u32 - '0' as u32) as nat
}

/// Whether every character of `s` is a decimal digit.
pub open spec fn all_digits(s: Seq<char>) -> bool {
    forall|i: int| 0 <= i < s.len() ==> is_digit(#[trigger] s[i])
}

/// The number that a sequence of decimal digits denotes, most significant
/// digit first. The empty sequence denotes zero.
pub open spec fn decimal_value(s: Seq<char>) -> nat
    decreases s.len(),
{
    if s.len() == 0 {
        0
    } else {
        decimal_value(s.drop_last()) * 10 + digit_value(s.last())
    }
}

/// The characters of `s` once one leading plus sign, if there is one, is gone.
pub open spec fn unsigned_part(s: Seq<char>) -> Seq<char> {
    if s.len() > 0 && s[0] == '+' {
        s.skip(1)
    } else {
        s
    }
}

/// The identifier that `s` denotes, if it is numeric: an optional plus sign,
/// then at least one decimal digit and nothing else, with a value that a
/// 32-bit identifier can hold. Leading zeros are allowed.
pub open spec fn numeric_id(s: Seq<char>) -> Option<u32> {
    let digits = unsigned_part(s);
    if digits.len() > 0 && all_digits(digits) && decimal_value(digits) <= u32::MAX {
        Some(decimal_value(digits) as u32)
    } else {
        None
    }
}

/// A prefix of a digit sequence never denotes more than the whole sequence.
pub proof fn lemma_decimal_value_prefix(s: Seq<char>, k: int)
    requires
        0 <= k <= s.len(),
    ensures
        decimal_value(s.take(k)) <= decimal_value(s),
    decreases s.len(),
{
    if k == s.len() {
        assert(s.take(k) =~= s);
    } else {
        assert(s.drop_last().take(k) =~= s.take(k));
        lemma_decimal_value_prefix(s.drop_last(), k);
    }
}

/// Reads `token` as a numeric user or group identifier.
pub fn parse_id(token: &str) -> (id: Option<u32>)
    ensures
        id == numeric_id(token@),
{
    let n: usize = token.unicode_len();
    let mut start: usize = 0;
    if n > 0 && token.get_char(0) == '+' {
        start = 1;
    }
    if start == n {
        return None;
    }
    let ghost digits = unsigned_part(token@);
    assert(digits =~= token@.skip(start as int));
    let mut value: u32 = 0;
    let mut i: usize = start;
    while i < n
        invariant
            start <= i <= n,
            n == token@.len(),
            digits == unsigned_part(token@),
            digits == token@.skip(start as int),
            all_digits(digits.take(i - start)),
            value == decimal_value(digits.take(i - start)),
        decreases n - i,
    {
        let c: char = token.get_char(i);
        let ghost k: int = i - start;
        assert(digits[k] == c);
        if !('0' <= c && c <= '9') {
            assert(!is_digit(digits[k]));
            return None;
        }
        let d: u32 = c as u32 - '0' as u32;
        proof {
            assert(digits.take(k + 1).drop_last() =~= digits.take(k));
            assert(digits.take(k + 1).last() == c);
            lemma_decimal_value_prefix(digits, k + 1);
        }
        if value > (u32::MAX - d) / 10 {
            assert(decimal_value(digits.take(k + 1)) == value * 10 + d);
            return None;
        }
        value = value * 10 + d;
        i = i + 1;
    }
    assert(digits.take(n - start) =~= digits);
    Some(value)
}

/// Why a target specification was refused.
#[derive(Clone, Copy, Debug, PartialEq, Eq, Structural)]
pub enum ParseError {
    /// The token holds more than one separator.
    InvalidFormat,
}

/// The character that parts the user from the group.
pub open spec fn is_separator(c: char) -> bool {
    c == ':'
}

/// Whether no character of `s` is the separator.
pub open spec fn separator_free(s: Seq<char>) -> bool {
    forall|i: int| 0 <= i < s.len() ==> !is_separator(#[trigger] s[i])
}

/// Whether `i` is the place of the first separator in `s`.
pub open spec fn is_first_separator(s: Seq<char>, i: int) -> bool {
    0 <= i < s.len() && is_separator(s[i]) && separator_free(s.take(i))
}

/// The place of the first separator in `s`, where `s` holds one.
pub open spec fn first_separator(s: Seq<char>) -> int {
    choose|i: int| is_first_separator(s, i)
}

/// What a target specification means, over characters: the token itself is
/// the user where it holds no separator; where it holds exactly one, the user
/// stands before it and the group behind it, either of which may be empty;
/// with two or more it is refused.
pub open spec fn target_parts(s: Seq<char>) -> Result<(Seq<char>, Option<Seq<char>>), ParseError> {
    if separator_free(s) {
        Ok((s, None))
    } else {
        let i = first_separator(s);
        if separator_free(s.skip(i + 1)) {
            Ok((s.take(i), Some(s.skip(i + 1))))
        } else {
            Err(ParseError::InvalidFormat)
        }
    }
}

/// The characters of a parsed target specification.
pub open spec fn parts_view(r: Result<(String, Option<String>), ParseError>) -> Result<
    (Seq<char>, Option<Seq<char>>),
    ParseError,
> {
    match r {
        Ok((user, Some(group))) => Ok((user@, Some(group@))),
        Ok((user, None)) => Ok((user@, None)),
        Err(e) => Err(e),
    }
}

/// A sequence has at most one first separator.
pub proof fn lemma_first_separator_unique(s: Seq<char>, i: int, j: int)
    requires
        is_first_separator(s, i),
        is_first_separator(s, j),
    ensures
        i == j,
{
    if i < j {
        assert(s.take(j)[i] == s[i]);
    } else if j < i {
        assert(s.take(i)[j] == s[j]);
    }
}

/// The place of the first separator at or after `from`, or the length of
/// `token` where there is none.
fn find_separator(token: &str, from: usize) -> (at: usize)
    requires
        from <= token@.len(),
    ensures
        from <= at <= token@.len(),
        separator_free(token@.subrange(from as int, at as int)),
        at < token@.len() ==> is_separator(token@[at as int]),
{
    let n: usize = token.unicode_len();
    let mut i: usize = from;
    while i < n
        invariant
            from <= i <= n,
            n == token@.len(),
            separator_free(token@.subrange(from as int, i as int)),
        decreases n - i,
    {
        if token.get_char(i) == ':' {
            return i;
        }
        proof {
            let before = token@.subrange(from as int, i as int);
            let after = token@.subrange(from as int, i + 1);
            assert forall|k: int| 0 <= k < after.len() implies !is_separator(
                #[trigger] after[k],
            ) by {
                if k < before.len() {
                    assert(after[k] == before[k]);
                }
            }
        }
        i = i + 1;
    }
    i
}

/// Parts a target specification `USER[:GROUP]` into its user and, where one
/// is given, its group. Neither part is examined further.
pub fn parse_user_group(arg: &str) -> (parsed: Result<(String, Option<String>), ParseError>)
    ensures
        parts_view(parsed) == target_parts(arg@),
{
    let n: usize = arg.unicode_len();
    let first: usize = find_separator(arg, 0);
    assert(arg@.subrange(0, first as int) =~= arg@.take(first as int));
    if first == n {
        assert(arg@.take(first as int) =~= arg@);
        return Ok((String::from_str(arg), None));
    }
    proof {
        assert(is_first_separator(arg@, first as int));
        assert(!separator_free(arg@));
        lemma_first_separator_unique(arg@, first as int, first_separator(arg@));
    }
    let second: usize = find_separator(arg, first + 1);
    let ghost rest = arg@.skip(first + 1);
    if second < n {
        assert(rest[second - first - 1] == arg@[second as int]);
        return Err(ParseError::InvalidFormat);
    }
    assert(arg@.subrange(first + 1, second as int) =~= rest);
    let user: String = String::from_str(arg.substring_char(0, first));
    let group: String = String::from_str(arg.substring_char(first + 1, n));
    assert(arg@.subrange(0, first as int) =~= arg@.take(first as int));
    Ok((user, Some(group)))
}

} // verus!
