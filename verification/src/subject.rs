//! The subject claim. It is a compound name, `<namespace>:<type>:<id>`, and the
//! id of the principal is its third part, a number.

use vstd::prelude::*;
use vstd::string::*;
use crate::error::SsoError;
use crate::models::EveJwtClaims;

verus! {

/// `text` has no colon from `from` up to, not including, `to`.
pub open spec fn colon_free(text: Seq<char>, from: int, to: int) -> bool {
    forall|k: int| from <= k < to ==> #[trigger] text[k] != ':'
}

/// The first two colons of `text` are at `a` and `b`, and its third part ends
/// before `c`, which is the place of the third colon or, if there is none, the
/// length of `text`.
pub open spec fn is_split(text: Seq<char>, a: int, b: int, c: int) -> bool {
    &&& 0 <= a < b < c <= text.len()
    &&& text[a] == ':'
    &&& text[b] == ':'
    &&& c < text.len() ==> text[c] == ':'
    &&& colon_free(text, 0, a)
    &&& colon_free(text, a + 1, b)
    &&& colon_free(text, b + 1, c)
}

/// The third of the parts that the colons cut `text` into, if there are that
/// many.
pub open spec fn third_part(text: Seq<char>) -> Option<Seq<char>> {
    if exists|a: int, b: int, c: int| is_split(text, a, b, c) {
        let (a, b, c) = choose|a: int, b: int, c: int| is_split(text, a, b, c);
        Some(text.subrange(b + 1, c))
    } else {
        None
    }
}

/// A decimal digit.
pub open spec fn is_digit(c: char) -> bool {
    '0' <= c <= '9'
}

/// Every character of `text` is a decimal digit.
pub open spec fn all_digits(text: Seq<char>) -> bool {
    forall|i: int| 0 <= i < text.len() ==> is_digit(#[trigger] text[i])
}

/// The number that a run of decimal digits writes.
pub open spec fn decimal_value(digits: Seq<char>) -> int
    decreases digits.len(),
{
    if digits.len() == 0 {
        0
    } else {
        decimal_value(digits.drop_last()) * 10 + (digits.last() as int - '0' as int)
    }
}

/// `text` begins with a sign.
pub open spec fn is_signed(text: Seq<char>) -> bool {
    text.len() > 0 && (text[0] == '-' || text[0] == '+')
}

/// The digits of a number: `text` without its sign.
pub open spec fn digits_of(text: Seq<char>) -> Seq<char> {
    if is_signed(text) {
        text.subrange(1, text.len() as int)
    } else {
        text
    }
}

/// The number that `text` writes: its digits' value, negated after a minus.
pub open spec fn signed_value(text: Seq<char>) -> int {
    if text.len() > 0 && text[0] == '-' {
        -decimal_value(digits_of(text))
    } else {
        decimal_value(digits_of(text))
    }
}

/// The number that `text` writes, where it writes one that fits: an optional
/// sign, then one decimal digit or more and nothing else.
pub open spec fn parse_i32(text: Seq<char>) -> Option<i32> {
    if digits_of(text).len() > 0 && all_digits(digits_of(text)) && i32::MIN <= signed_value(text)
        <= i32::MAX {
        Some(signed_value(text) as i32)
    } else {
        None
    }
}

/// The id that a subject names: its third part, read as a number.
pub open spec fn subject_id_of(sub: Seq<char>) -> Option<i32> {
    match third_part(sub) {
        Some(part) => parse_i32(part),
        None => None,
    }
}

/// A text is split in one way only.
pub proof fn lemma_split_unique(text: Seq<char>, a: int, b: int, c: int, x: int, y: int, z: int)
    requires
        is_split(text, a, b, c),
        is_split(text, x, y, z),
    ensures
        a == x,
        b == y,
        c == z,
{
    if a < x {
        assert(text[a] != ':');
    } else if x < a {
        assert(text[x] != ':');
    }
    if b < y {
        assert(text[b] != ':');
    } else if y < b {
        assert(text[y] != ':');
    }
    if c < z {
        assert(text[c] != ':');
    } else if z < c {
        assert(text[z] != ':');
    }
}

/// Digits write a number that is not negative.
pub proof fn lemma_decimal_nonnegative(digits: Seq<char>)
    requires
        all_digits(digits),
    ensures
        decimal_value(digits) >= 0,
    decreases digits.len(),
{
    if digits.len() > 0 {
        assert(is_digit(digits.last()));
        assert forall|i: int| 0 <= i < digits.drop_last().len() implies is_digit(
            #[trigger] digits.drop_last()[i],
        ) by {
            assert(digits.drop_last()[i] == digits[i]);
        }
        lemma_decimal_nonnegative(digits.drop_last());
    }
}

/// More digits never write a smaller number.
pub proof fn lemma_decimal_grows(digits: Seq<char>, k: int)
    requires
        all_digits(digits),
        0 <= k <= digits.len(),
    ensures
        decimal_value(digits.subrange(0, k)) <= decimal_value(digits),
    decreases digits.len(),
{
    if k == digits.len() {
        assert(digits.subrange(0, k) =~= digits);
    } else {
        let front = digits.drop_last();
        assert(is_digit(digits.last()));
        assert forall|i: int| 0 <= i < front.len() implies is_digit(#[trigger] front[i]) by {
            assert(front[i] == digits[i]);
        }
        lemma_decimal_grows(front, k);
        lemma_decimal_nonnegative(front);
        assert(front.subrange(0, k) =~= digits.subrange(0, k));
    }
}

/// The first colon of `text` at or after `from`, or `len` if none follows.
fn find_colon(text: &str, from: usize, len: usize) -> (pos: usize)
    requires
        len == text@.len(),
        from <= len,
    ensures
        from <= pos <= len,
        colon_free(text@, from as int, pos as int),
        pos < len ==> text@[pos as int] == ':',
{
    let mut pos: usize = from;
    while pos < len
        invariant
            len == text@.len(),
            from <= pos <= len,
            colon_free(text@, from as int, pos as int),
        decreases len - pos,
    {
        if text.get_char(pos) == ':' {
            return pos;
        }
        pos = pos + 1;
    }
    pos
}

/// Reads the characters of `text` from `from` up to `to` as a number.
fn parse_number(text: &str, from: usize, to: usize) -> (res: Option<i32>)
    requires
        from <= to <= text@.len(),
    ensures
        res == parse_i32(text@.subrange(from as int, to as int)),
{
    let ghost part = text@.subrange(from as int, to as int);
    if from == to {
        return None;
    }
    let head: char = text.get_char(from);
    assert(part[0] == head);
    let negative: bool = head == '-';
    let start: usize = if head == '-' || head == '+' {
        from + 1
    } else {
        from
    };
    let ghost digits = digits_of(part);
    assert(digits =~= text@.subrange(start as int, to as int));
    if start == to {
        return None;
    }
    let mut acc: i64 = 0;
    let mut i: usize = start;
    while i < to
        invariant
            from <= start <= i <= to <= text@.len(),
            part == text@.subrange(from as int, to as int),
            digits == digits_of(part),
            digits == text@.subrange(start as int, to as int),
            all_digits(digits.subrange(0, i - start)),
            acc == decimal_value(digits.subrange(0, i - start)),
            0 <= acc <= 2147483648,
        decreases to - i,
    {
        let c: char = text.get_char(i);
        assert(digits[i - start] == c);
        if !('0' <= c && c <= '9') {
            assert(!is_digit(digits[i - start]));
            return None;
        }
        let ghost before = digits.subrange(0, i - start);
        let ghost after = digits.subrange(0, i - start + 1);
        assert(after.drop_last() =~= before);
        assert(after.last() == c);
        assert forall|k: int| 0 <= k < after.len() implies is_digit(#[trigger] after[k]) by {
            if k < before.len() {
                assert(before[k] == after[k]);
            }
        }
        acc = acc * 10 + ((c as u32 - '0' as u32) as i64);
        if acc > 2147483648 {
            proof {
                if all_digits(digits) {
                    lemma_decimal_grows(digits, i - start + 1);
                }
            }
            return None;
        }
        i = i + 1;
    }
    assert(digits.subrange(0, i - start) =~= digits);
    if negative {
        Some((-acc) as i32)
    } else if acc <= 2147483647 {
        Some(acc as i32)
    } else {
        None
    }
}

/// Reads the id out of a subject: the third of its parts between colons, as
/// a number. `None` where the subject has fewer than three parts or the third
/// is no number that fits.
pub fn subject_id(sub: &str) -> (res: Option<i32>)
    ensures
        res == subject_id_of(sub@),
{
    let len: usize = sub.unicode_len();
    let a: usize = find_colon(sub, 0, len);
    if a >= len {
        assert forall|x: int, y: int, z: int| !is_split(sub@, x, y, z) by {
            if is_split(sub@, x, y, z) {
                assert(sub@[x] != ':');
            }
        }
        return None;
    }
    let b: usize = find_colon(sub, a + 1, len);
    if b >= len {
        assert forall|x: int, y: int, z: int| !is_split(sub@, x, y, z) by {
            if is_split(sub@, x, y, z) {
                if x < a {
                    assert(sub@[x] != ':');
                } else if x > a {
                    assert(sub@[a as int] != ':');
                } else {
                    assert(sub@[y] != ':');
                }
            }
        }
        return None;
    }
    let c: usize = find_colon(sub, b + 1, len);
    proof {
        assert(is_split(sub@, a as int, b as int, c as int));
        let (x, y, z) = choose|x: int, y: int, z: int| is_split(sub@, x, y, z);
        lemma_split_unique(sub@, a as int, b as int, c as int, x, y, z);
    }
    parse_number(sub, b + 1, c)
}

/// The id of the character that the claims are about.
///
/// A subject that names no id is an error, `MalformedToken`: no id is made up
/// for it.
pub fn character_id(claims: &EveJwtClaims) -> (res: Result<i32, SsoError>)
    ensures
        res == match subject_id_of(claims.sub@) {
            Some(id) => Ok::<i32, SsoError>(id),
            None => Err::<i32, SsoError>(SsoError::MalformedToken),
        },
{
    match subject_id(claims.sub.as_str()) {
        Some(id) => Ok(id),
        None => Err(SsoError::MalformedToken),
    }
}

} // verus!
