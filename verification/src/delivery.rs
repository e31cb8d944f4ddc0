//! The request that carries one reading to the endpoint.

use vstd::prelude::*;

verus! {

/// How one delivery ended. Each reading has its own outcome; none depends on
/// another's.
#[derive(Clone, Debug, PartialEq, Eq)]
pub enum DeliveryOutcome {
    /// The endpoint answered.
    Delivered,
    /// The request timed out or the transport failed; the reason says how.
    Failed(String),
}

/// Whether `c` is a decimal digit.
pub open spec fn is_digit(c: char) -> bool {
    '0' <= c && c <= '9'
}

/// Whether `s` is a run of at least one digit, a point, and two digits.
pub open spec fn is_unsigned_two_decimal(s: Seq<char>) -> bool {
    &&& s.len() >= 4
    &&& s[s.len() - 3] == '.'
    &&& forall|i: int| 0 <= i < s.len() && i != s.len() - 3 ==> is_digit(#[trigger] s[i])
}

/// Whether `s` is a number written with exactly two decimal places: an
/// optional minus sign, at least one digit, a point, and two digits.
pub open spec fn is_two_decimal(s: Seq<char>) -> bool {
    if s.len() > 0 && s[0] == '-' {
        is_unsigned_two_decimal(s.skip(1))
    } else {
        is_unsigned_two_decimal(s)
    }
}

/// The body of a request: the key, a space, and the value.
pub open spec fn body_of(key: Seq<char>, value: Seq<char>) -> Seq<char> {
    key + seq![' '] + value
}

/// Tells whether `text` is a number written with exactly two decimal places.
pub fn has_two_decimals(text: &str) -> (r: bool)
    ensures
        r == is_two_decimal(text@),
{
    let n: usize = text.unicode_len();
    if n == 0 {
        return false;
    }
    let signed: bool = text.get_char(0) == '-';
    let first: usize = if signed { 1 } else { 0 };
    if n - first < 4 {
        return false;
    }
    let point: usize = n - 3;
    let ghost digits = if signed { text@.skip(1) } else { text@ };
    let mut i: usize = 0;
    for c in it: text.chars()
        invariant
            n == text@.len(),
            it.seq() == text@,
            i == it.index(),
            first <= 1,
            first == if signed { 1usize } else { 0usize },
            signed == (text@[0] == '-'),
            n - first >= 4,
            point == n - 3,
            digits == if signed { text@.skip(1) } else { text@ },
            forall|j: int| first <= j < i && j != point ==> is_digit(text@[j]),
            i > point ==> text@[point as int] == '.',
    {
        if i >= first {
            if i == point {
                if c != '.' {
                    assert(digits[digits.len() - 3] == text@[point as int]);
                    return false;
                }
            } else if !('0' <= c && c <= '9') {
                assert(digits[i - first] == text@[i as int]);
                return false;
            }
        }
        i = i + 1;
    }
    assert(digits[digits.len() - 3] == text@[point as int]);
    assert forall|k: int| 0 <= k < digits.len() && k != digits.len() - 3 implies is_digit(
        #[trigger] digits[k],
    ) by {
        assert(digits[k] == text@[k + first]);
    }
    true
}

/// Builds the body of the request for one reading from its key and from its
/// value, which the caller has written out with two decimal places. There is
/// no body where the value is not written so.
pub fn delivery_body(key: &str, value: &str) -> (body: Option<String>)
    ensures
        match body {
            Some(text) => is_two_decimal(value@) && text@ == body_of(key@, value@),
            None => !is_two_decimal(value@),
        },
{
    if !has_two_decimals(value) {
        return None;
    }
    proof {
        reveal_strlit(" ");
        assert(" "@ =~= seq![' ']);
    }
    let mut body: String = key.to_owned();
    body.append(" ");
    body.append(value);
    Some(body)
}

} // verus!
