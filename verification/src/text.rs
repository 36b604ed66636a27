//! Text building blocks: decimal numerals and string concatenation.

use vstd::prelude::*;

verus! {

/// The character that stands for the decimal digit `d`.
pub open spec fn digit_char(d: int) -> char {
    if d == 0 {
        '0'
    } else if d == 1 {
        '1'
    } else if d == 2 {
        '2'
    } else if d == 3 {
        '3'
    } else if d == 4 {
        '4'
    } else if d == 5 {
        '5'
    } else if d == 6 {
        '6'
    } else if d == 7 {
        '7'
    } else if d == 8 {
        '8'
    } else {
        '9'
    }
}

/// The decimal numeral of `n`, most significant digit first, without
/// leading zeros.
pub open spec fn decimal(n: nat) -> Seq<char>
    decreases n,
{
    if n < 10 {
        seq![digit_char(n as int)]
    } else {
        decimal(n / 10).push(digit_char((n % 10) as int))
    }
}

/// The numeral of a signed number: a minus sign in front of the numeral of
/// its magnitude where it is negative.
pub open spec fn signed_decimal(n: int) -> Seq<char> {
    if n < 0 {
        seq!['-'] + decimal((-n) as nat)
    } else {
        decimal(n as nat)
    }
}

/// The one-character string of a decimal digit.
fn digit_str(d: u64) -> (s: &'static str)
    requires
        d < 10,
    ensures
        s@ == seq![digit_char(d as int)],
{
    proof {
        reveal_strlit("0");
        reveal_strlit("1");
        reveal_strlit("2");
        reveal_strlit("3");
        reveal_strlit("4");
        reveal_strlit("5");
        reveal_strlit("6");
        reveal_strlit("7");
        reveal_strlit("8");
        reveal_strlit("9");
    }
    let s: &'static str = if d == 0 {
        "0"
    } else if d == 1 {
        "1"
    } else if d == 2 {
        "2"
    } else if d == 3 {
        "3"
    } else if d == 4 {
        "4"
    } else if d == 5 {
        "5"
    } else if d == 6 {
        "6"
    } else if d == 7 {
        "7"
    } else if d == 8 {
        "8"
    } else {
        "9"
    };
    assert(s@ =~= seq![digit_char(d as int)]);
    s
}

/// Appends the decimal numeral of `n` to `out`.
pub fn push_decimal(out: &mut String, n: u64)
    ensures
        final(out)@ == old(out)@ + decimal(n as nat),
    decreases n,
{
    if n >= 10 {
        push_decimal(out, n / 10);
    }
    let ghost before = out@;
    out.append(digit_str(n % 10));
    proof {
        if n >= 10 {
            assert(out@ =~= old(out)@ + decimal(n as nat));
        } else {
            assert(out@ =~= old(out)@ + decimal(n as nat));
        }
    }
}

/// The decimal numeral of `n` as a string.
pub fn decimal_string(n: u64) -> (s: String)
    ensures
        s@ == decimal(n as nat),
{
    let mut s = String::new();
    push_decimal(&mut s, n);
    assert(s@ =~= decimal(n as nat));
    s
}

/// The value of a decimal digit, if the character is one.
pub open spec fn digit_value(c: char) -> Option<nat> {
    if c == '0' {
        Some(0nat)
    } else if c == '1' {
        Some(1nat)
    } else if c == '2' {
        Some(2nat)
    } else if c == '3' {
        Some(3nat)
    } else if c == '4' {
        Some(4nat)
    } else if c == '5' {
        Some(5nat)
    } else if c == '6' {
        Some(6nat)
    } else if c == '7' {
        Some(7nat)
    } else if c == '8' {
        Some(8nat)
    } else if c == '9' {
        Some(9nat)
    } else {
        None
    }
}

/// Whether every character is a decimal digit.
pub open spec fn all_digits(s: Seq<char>) -> bool {
    forall|i: int| 0 <= i < s.len() ==> digit_value(#[trigger] s[i]) is Some
}

/// The number that a string of decimal digits stands for. Leading zeros are
/// accepted.
pub open spec fn digits_value(s: Seq<char>) -> nat
    decreases s.len(),
{
    if s.len() == 0 {
        0
    } else {
        match digit_value(s.last()) {
            Some(d) => digits_value(s.drop_last()) * 10 + d,
            None => 0,
        }
    }
}

/// The digits of a numeral: what follows a single leading plus sign, if
/// there is one.
pub open spec fn numeral_digits(s: Seq<char>) -> Seq<char> {
    if s.len() > 0 && s[0] == '+' {
        s.skip(1)
    } else {
        s
    }
}

/// The number that a numeral stands for: an optional plus sign followed by
/// at least one decimal digit, and nothing else.
pub open spec fn numeral_value(s: Seq<char>) -> Option<nat> {
    let digits = numeral_digits(s);
    if digits.len() > 0 && all_digits(digits) {
        Some(digits_value(digits))
    } else {
        None
    }
}

/// Writing a number and reading it back gives the number: the numeral of
/// `n` is made of digits only, is not empty and stands for `n`.
pub proof fn lemma_numeral_round_trip(n: nat)
    ensures
        decimal(n).len() > 0,
        all_digits(decimal(n)),
        digits_value(decimal(n)) == n,
        numeral_value(decimal(n)) == Some(n),
    decreases n,
{
    let written = decimal(n);
    if n < 10 {
        assert(written =~= seq![digit_char(n as int)]);
        assert(written.drop_last() =~= Seq::<char>::empty());
        assert(digit_value(written.last()) == Some(n));
        assert(digits_value(written.drop_last()) == 0);
        assert(digits_value(written) == digits_value(written.drop_last()) * 10 + n);
    } else {
        lemma_numeral_round_trip(n / 10);
        let front = decimal(n / 10);
        let digit = digit_char((n % 10) as int);
        assert(written =~= front.push(digit));
        assert(written.drop_last() =~= front);
        assert(written.last() == digit);
        assert(digit_value(digit) == Some(n % 10));
        assert(digits_value(written) == digits_value(front) * 10 + n % 10);
        assert forall|i: int| 0 <= i < written.len() implies digit_value(#[trigger] written[i])
            is Some by {
            if i < front.len() {
                assert(written[i] == front[i]);
            }
        }
    }
    assert(digit_value(written[0]) is Some);
    assert(numeral_digits(written) == written);
}

/// The value of a decimal digit, if the character is one.
fn digit_of(c: char) -> (d: Option<usize>)
    ensures
        match d {
            Some(d) => digit_value(c) == Some(d as nat) && d < 10,
            None => digit_value(c) is None,
        },
{
    if c == '0' {
        Some(0)
    } else if c == '1' {
        Some(1)
    } else if c == '2' {
        Some(2)
    } else if c == '3' {
        Some(3)
    } else if c == '4' {
        Some(4)
    } else if c == '5' {
        Some(5)
    } else if c == '6' {
        Some(6)
    } else if c == '7' {
        Some(7)
    } else if c == '8' {
        Some(8)
    } else if c == '9' {
        Some(9)
    } else {
        None
    }
}

/// The value of a string of digits never shrinks when digits are appended.
proof fn lemma_digits_value_grows(s: Seq<char>, len: int)
    requires
        all_digits(s),
        0 <= len <= s.len(),
    ensures
        digits_value(s.take(len)) <= digits_value(s),
    decreases s.len() - len,
{
    if len < s.len() {
        let longer = s.take(len + 1);
        assert(longer.drop_last() =~= s.take(len));
        assert(longer.last() == s[len]);
        assert(digit_value(s[len]) is Some);
        lemma_digits_value_grows(s, len + 1);
    } else {
        assert(s.take(len) =~= s);
    }
}

/// Reads a numeral: an optional plus sign, then decimal digits. Gives
/// nothing where the text is no numeral or the number does not fit.
pub fn parse_usize(text: &str) -> (parsed: Option<usize>)
    ensures
        parsed == match numeral_value(text@) {
            Some(value) => if value <= usize::MAX {
                Some(value as usize)
            } else {
                None
            },
            None => None,
        },
{
    let len = text.unicode_len();
    if len == 0 {
        return None;
    }
    let start: usize = if text.get_char(0) == '+' {
        1
    } else {
        0
    };
    if start == len {
        return None;
    }
    let ghost digits = numeral_digits(text@);
    assert(digits =~= text@.skip(start as int));
    let mut value: usize = 0;
    let mut i: usize = start;
    assert(digits.take(0) =~= Seq::<char>::empty());
    while i < len
        invariant
            start <= i <= len,
            len == text@.len(),
            digits == text@.skip(start as int),
            digits == numeral_digits(text@),
            all_digits(digits.take(i - start)),
            value == digits_value(digits.take(i - start)),
        decreases len - i,
    {
        let c = text.get_char(i);
        assert(digits[i - start] == c);
        let ghost longer = digits.take(i - start + 1);
        proof {
            assert(longer.drop_last() =~= digits.take(i - start));
            assert(longer.last() == c);
        }
        match digit_of(c) {
            None => {
                assert(!all_digits(digits));
                return None;
            },
            Some(d) => {
                proof {
                    assert forall|k: int| 0 <= k < longer.len() implies digit_value(
                        #[trigger] longer[k],
                    ) is Some by {
                        if k < longer.len() - 1 {
                            assert(longer[k] == digits.take(i - start)[k]);
                        }
                    }
                }
                let scaled = value.checked_mul(10);
                let next = match scaled {
                    Some(scaled) => scaled.checked_add(d),
                    None => None,
                };
                match next {
                    Some(next) => {
                        value = next;
                    },
                    None => {
                        proof {
                            assert(digits_value(longer) > usize::MAX);
                            if all_digits(digits) {
                                lemma_digits_value_grows(digits, i - start + 1);
                            } else {
                            }
                        }
                        return None;
                    },
                }
            },
        }
        i = i + 1;
    }
    assert(digits.take(i - start) =~= digits);
    Some(value)
}

/// The texts that a list of strings holds.
pub open spec fn texts(lines: Seq<String>) -> Seq<Seq<char>> {
    Seq::new(lines.len(), |k: int| lines[k]@)
}

/// Whether two texts are the same.
pub fn same_text(left: &str, right: &str) -> (same: bool)
    ensures
        same == (left@ == right@),
{
    let left = String::from_str(left);
    let right = String::from_str(right);
    left == right
}

/// The text of a truth value.
pub fn bool_text(value: bool) -> (text: &'static str)
    ensures
        text@ == if value {
            "true"@
        } else {
            "false"@
        },
{
    if value {
        "true"
    } else {
        "false"
    }
}

} // verus!
