//! Text: numbers in decimal, and lines cut to a width.

use vstd::prelude::*;

verus! {

/// The digit for `d`, which is below 10.
pub open spec fn digit(d: nat) -> char {
    ('0' as nat + d) as char
}

/// `n` in decimal, without leading zeros.
pub open spec fn decimal(n: nat) -> Seq<char>
    decreases n,
{
    if n < 10 {
        seq![digit(n)]
    } else {
        decimal(n / 10).push(digit(n % 10))
    }
}

/// Whether `c` is one of the digits 0 to 9.
pub open spec fn is_digit(c: char) -> bool {
    '0' <= c <= '9'
}

/// The number that a sequence of digits stands for.
pub open spec fn digits_value(digits: Seq<char>) -> nat
    decreases digits.len(),
{
    if digits.len() == 0 {
        0
    } else {
        10 * digits_value(digits.drop_last()) + if is_digit(digits.last()) {
            (digits.last() as nat - '0' as nat) as nat
        } else {
            0
        }
    }
}

/// `text` without the one plus sign that may lead it.
pub open spec fn unsigned_part(text: Seq<char>) -> Seq<char> {
    if text.len() > 0 && text[0] == '+' {
        text.skip(1)
    } else {
        text
    }
}

/// The number that `text` spells: digits only, after at most one plus sign, and
/// no more than a `u64` can hold.
pub open spec fn spelled_number(text: Seq<char>) -> Option<u64> {
    let digits = unsigned_part(text);
    if digits.len() > 0 && (forall|i: int| 0 <= i < digits.len() ==> is_digit(#[trigger] digits[i]))
        && digits_value(digits) <= u64::MAX {
        Some(digits_value(digits) as u64)
    } else {
        None
    }
}

/// The first `width` characters of `text`, or all of it where it has fewer.
pub open spec fn clipped(text: Seq<char>, width: nat) -> Seq<char> {
    if text.len() <= width {
        text
    } else {
        text.take(width as int)
    }
}

/// The digit for `d` as text.
fn digit_text(d: u64) -> (text: &'static str)
    requires
        d < 10,
    ensures
        text@ == seq![digit(d as nat)],
{
    proof {
        reveal_strlit("0");
        reveal_strlit("1");
        reveal_strlit("2");
        reveal_strlit("3");
        reveal_strlit("4");
        reveal_strlit("5");
        reveal_strlit("6");
        reveal_strlit("7");
        reveal_strlit("8");
        reveal_strlit("9");
    }
    match d {
        0 => "0",
        1 => "1",
        2 => "2",
        3 => "3",
        4 => "4",
        5 => "5",
        6 => "6",
        7 => "7",
        8 => "8",
        _ => "9",
    }
}

/// Appends `n` in decimal.
pub fn push_decimal(out: &mut String, n: u64)
    ensures
        final(out)@ == old(out)@ + decimal(n as nat),
    decreases n,
{
    if n >= 10 {
        push_decimal(out, n / 10);
    }
    out.append(digit_text(n % 10));
}

proof fn lemma_prefix_value(digits: Seq<char>, i: int)
    requires
        0 <= i <= digits.len(),
    ensures
        digits_value(digits.take(i)) <= digits_value(digits),
    decreases digits.len() - i,
{
    if i < digits.len() {
        lemma_prefix_value(digits, i + 1);
        assert(digits.take(i + 1).drop_last() =~= digits.take(i));
    } else {
        assert(digits.take(i) =~= digits);
    }
}

/// Reads a number, as `str::parse::<u64>` does.
pub fn parse_number(text: &str) -> (number: Option<u64>)
    ensures
        number == spelled_number(text@),
{
    let mut value: u64 = 0;
    let mut first: bool = true;
    let mut empty: bool = true;
    let ghost digits = unsigned_part(text@);
    let ghost offset: int = text@.len() - digits.len();
    for c in chars: text.chars()
        invariant
            chars.seq() == text@,
            digits == unsigned_part(text@),
            offset == text@.len() - digits.len(),
            first == (chars.index() == 0),
            empty == (chars.index() <= offset),
            empty ==> value == 0,
            !empty ==> value == digits_value(digits.take(chars.index() - offset)),
            forall|i: int|
                0 <= i < chars.index() - offset ==> is_digit(#[trigger] digits[i]),
    {
        let ghost at = chars.index();
        if first && c == '+' {
            first = false;
        } else {
            first = false;
            proof {
                assert(c == digits[at - offset]);
                if empty {
                    assert(digits_value(digits.take(0)) == 0);
                }
                lemma_prefix_value(digits, at - offset + 1);
                assert(digits.take(at - offset + 1).drop_last() =~= digits.take(at - offset));
            }
            empty = false;
            if !('0' <= c && c <= '9') {
                return None;
            }
            let d: u64 = c as u64 - '0' as u64;
            if value > (u64::MAX - d) / 10 {
                return None;
            }
            value = value * 10 + d;
        }
    }
    assert(digits.take(digits.len() as int) =~= digits);
    if empty {
        None
    } else {
        Some(value)
    }
}

/// Cuts `text` to `width` characters.
pub fn clip(text: &str, width: usize) -> (line: String)
    ensures
        line@ == clipped(text@, width as nat),
{
    if text.unicode_len() <= width {
        text.to_owned()
    } else {
        text.substring_char(0, width).to_owned()
    }
}

/// A number's decimal text spells the number.
pub proof fn decimal_spells_its_number(n: u64)
    ensures
        spelled_number(decimal(n as nat)) == Some(n),
{
    decimal_is_made_of_digits(n as nat);
}

/// The decimal text of a number is made of digits, which stand for the number.
pub proof fn decimal_is_made_of_digits(n: nat)
    ensures
        decimal(n).len() > 0,
        forall|i: int| 0 <= i < decimal(n).len() ==> is_digit(#[trigger] decimal(n)[i]),
        digits_value(decimal(n)) == n,
    decreases n,
{
    reveal_with_fuel(digits_value, 2);
    if n < 10 {
        assert(decimal(n).drop_last() =~= seq![]);
    } else {
        decimal_is_made_of_digits(n / 10);
        assert(decimal(n).drop_last() =~= decimal(n / 10));
    }
}

/// Clipping keeps the start of a text: a text that is wider than `width` fills
/// the width, one that is not is kept whole, and every character that is kept
/// stays in its place.
pub proof fn clipping_keeps_the_start(text: Seq<char>, width: nat)
    ensures
        text.len() > width ==> clipped(text, width).len() == width,
        text.len() <= width ==> clipped(text, width).len() == text.len(),
        forall|i: int|
            0 <= i < text.len() && i < width ==> #[trigger] clipped(text, width)[i] == text[i],
{
}

/// Decimal text is positional: a digit behind a number makes ten times the number
/// and the digit, and a single digit is the character for it.
pub proof fn decimal_is_positional(n: nat, d: nat)
    requires
        d < 10,
    ensures
        decimal(d).len() == 1,
        decimal(d)[0] as nat == '0' as nat + d,
        n > 0 ==> decimal(10 * n + d).len() == decimal(n).len() + 1,
        n > 0 ==> decimal(10 * n + d).drop_last() == decimal(n),
        n > 0 ==> decimal(10 * n + d).last() as nat == '0' as nat + d,
{
    if n > 0 {
        assert((10 * n + d) / 10 == n && (10 * n + d) % 10 == d);
        assert(decimal(10 * n + d).drop_last() =~= decimal(n));
    }
}

/// Only 0 has a decimal text that starts with a zero.
pub proof fn decimal_has_no_leading_zero(n: nat)
    ensures
        decimal(n).len() > 0,
        decimal(n)[0] == '0' <==> n == 0,
    decreases n,
{
    if n >= 10 {
        decimal_has_no_leading_zero(n / 10);
    }
}

proof fn lemma_pushed_digits(digits: Seq<char>, c: char)
    ensures
        digits_value(digits.push(c)) == 10 * digits_value(digits) + if '0' <= c <= '9' {
            (c as nat - '0' as nat) as nat
        } else {
            0
        },
{
    assert(digits.push(c).drop_last() =~= digits);
}

/// Reading a number goes character by character: a digit behind a number makes
/// ten times the number and the digit, as long as that is no more than a `u64`
/// can hold; any other character, or anything behind what is no number, makes no
/// number.
pub proof fn numbers_are_read_digit_by_digit(text: Seq<char>, c: char)
    requires
        text.len() > 0,
        text != seq!['+'],
    ensures
        spelled_number(text.push(c)) == (match spelled_number(text) {
            Some(n) => if '0' <= c <= '9' && 10 * n + (c as int - '0' as int) <= u64::MAX {
                Some((10 * n + (c as int - '0' as int)) as u64)
            } else {
                None
            },
            None => None,
        }),
{
    let digits = unsigned_part(text);
    let more = unsigned_part(text.push(c));
    assert(digits.len() > 0) by {
        if text.len() == 1 && text[0] == '+' {
            assert(text =~= seq!['+']);
        }
    }
    assert(more =~= digits.push(c));
    lemma_pushed_digits(digits, c);
    assert(forall|i: int| 0 <= i < digits.len() ==> digits[i] == more[i]);
    assert(more[digits.len() as int] == c);
    if forall|i: int| 0 <= i < digits.len() ==> is_digit(#[trigger] digits[i]) {
        assert(is_digit(c) ==> forall|i: int| 0 <= i < more.len() ==> is_digit(#[trigger] more[i]));
    } else {
        let i = choose|i: int| 0 <= i < digits.len() && !is_digit(#[trigger] digits[i]);
        assert(!is_digit(more[i]));
    }
}

/// The shortest numbers: nothing spells none, and a single character spells one
/// exactly where it is a digit.
pub proof fn single_digits_are_numbers(c: char)
    ensures
        spelled_number(Seq::empty()) is None,
        spelled_number(seq![c]) == (if '0' <= c <= '9' {
            Some((c as int - '0' as int) as u64)
        } else {
            None
        }),
{
    assert(Seq::<char>::empty().push(c) =~= seq![c]);
    lemma_pushed_digits(Seq::empty(), c);
    if c == '+' {
        assert(seq![c].skip(1) =~= Seq::<char>::empty());
    } else {
        assert(seq![c][0] == c);
    }
}

/// One plus sign in front of a number makes no difference, and two make none.
pub proof fn one_plus_sign_may_lead(text: Seq<char>)
    ensures
        spelled_number(seq!['+'] + text) == (if text.len() > 0 && text[0] == '+' {
            None
        } else {
            spelled_number(text)
        }),
{
    assert((seq!['+'] + text).skip(1) =~= text);
    if text.len() > 0 && text[0] == '+' {
        assert(!is_digit(text[0]));
    }
}

} // verus!
