//! Text helpers: comparing strings, and decimal numbers as text.

use vstd::prelude::*;
use vstd::string::StringExecFns;
use vstd::string::StringSliceAdditionalSpecFns;

verus! {

/// Whether two strings hold the same characters.
pub fn same_text(left: &str, right: &str) -> (same: bool)
    ensures
        same == (left@ == right@),
{
    let a = left.as_bytes();
    let b = right.as_bytes();
    if a.len() != b.len() {
        return false;
    }
    let mut i: usize = 0;
    while i < a.len()
        invariant
            i <= a.len(),
            a.len() == b.len(),
            a@ == left.spec_bytes(),
            b@ == right.spec_bytes(),
            forall|k: int| 0 <= k < i ==> a@[k] == b@[k],
        decreases a.len() - i,
    {
        if a[i] != b[i] {
            return false;
        }
        i = i + 1;
    }
    proof {
        assert(a@ =~= b@);
        vstd::utf8::encode_utf8_decode_utf8(left@);
        vstd::utf8::encode_utf8_decode_utf8(right@);
    }
    true
}

/// The decimal digit that stands for `d`, for `d` below ten.
pub open spec fn digit_char(d: nat) -> char {
    if d == 0 {
        '0'
    } else if d == 1 {
        '1'
    } else if d == 2 {
        '2'
    } else if d == 3 {
        '3'
    } else if d == 4 {
        '4'
    } else if d == 5 {
        '5'
    } else if d == 6 {
        '6'
    } else if d == 7 {
        '7'
    } else if d == 8 {
        '8'
    } else {
        '9'
    }
}

/// `n` written in base ten, without sign and without leading zeros.
pub open spec fn decimal_digits(n: nat) -> Seq<char>
    decreases n,
{
    if n < 10 {
        seq![digit_char(n)]
    } else {
        decimal_digits(n / 10).push(digit_char(n % 10))
    }
}

fn digit_text(d: u64) -> (text: &'static str)
    requires
        d < 10,
    ensures
        text@ == seq![digit_char(d as nat)],
{
    proof {
        reveal_strlit("0");
        reveal_strlit("1");
        reveal_strlit("2");
        reveal_strlit("3");
        reveal_strlit("4");
        reveal_strlit("5");
        reveal_strlit("6");
        reveal_strlit("7");
        reveal_strlit("8");
        reveal_strlit("9");
    }
    let text = if d == 0 {
        "0"
    } else if d == 1 {
        "1"
    } else if d == 2 {
        "2"
    } else if d == 3 {
        "3"
    } else if d == 4 {
        "4"
    } else if d == 5 {
        "5"
    } else if d == 6 {
        "6"
    } else if d == 7 {
        "7"
    } else if d == 8 {
        "8"
    } else {
        "9"
    };
    assert(text@ =~= seq![digit_char(d as nat)]);
    text
}

/// Writes `n` in base ten.
pub fn decimal_text(n: u64) -> (text: String)
    ensures
        text@ == decimal_digits(n as nat),
    decreases n,
{
    if n < 10 {
        String::from_str(digit_text(n))
    } else {
        let mut text = decimal_text(n / 10);
        text.append(digit_text(n % 10));
        assert(text@ =~= decimal_digits(n as nat));
        text
    }
}

/// Whether `byte` is an ASCII decimal digit.
pub open spec fn is_digit(byte: u8) -> bool {
    48 <= byte <= 57
}

/// Whether every byte of `bytes` is an ASCII decimal digit.
pub open spec fn all_digits(bytes: Seq<u8>) -> bool {
    forall|i: int| 0 <= i < bytes.len() ==> is_digit(#[trigger] bytes[i])
}

/// The number that the digits of `bytes` spell in base ten.
pub open spec fn digits_value(bytes: Seq<u8>) -> nat
    decreases bytes.len(),
{
    if bytes.len() == 0 {
        0
    } else {
        digits_value(bytes.drop_last()) * 10 + (bytes.last() - 48) as nat
    }
}

/// `bytes` without one leading plus sign.
pub open spec fn without_plus(bytes: Seq<u8>) -> Seq<u8> {
    if bytes.len() > 0 && bytes[0] == 43 {
        bytes.subrange(1, bytes.len() as int)
    } else {
        bytes
    }
}

/// The unsigned decimal number that `bytes` spell, if they spell one that is
/// at most `max`: an optional plus sign, then one or more digits, and nothing
/// else.
pub open spec fn parse_unsigned(bytes: Seq<u8>, max: nat) -> Option<nat> {
    let digits = without_plus(bytes);
    if digits.len() > 0 && all_digits(digits) && digits_value(digits) <= max {
        Some(digits_value(digits))
    } else {
        None
    }
}

/// The bytes of a text whose characters are all ASCII.
pub open spec fn ascii_bytes(text: Seq<char>) -> Seq<u8> {
    text.map_values(|c: char| c as u8)
}

/// Reading undoes writing: the digits that `decimal_digits` writes for a
/// number spell that number again, with or without a plus sign in front.
pub proof fn written_number_reads_back(n: nat, max: nat)
    requires
        n <= max,
    ensures
        parse_unsigned(ascii_bytes(decimal_digits(n)), max) == Some(n),
        parse_unsigned(seq![43u8] + ascii_bytes(decimal_digits(n)), max) == Some(n),
{
    digits_spell_their_number(n);
    let digits = ascii_bytes(decimal_digits(n));
    assert(is_digit(digits[0]));
    assert(without_plus(digits) == digits);
    let signed = seq![43u8] + digits;
    assert(without_plus(signed) =~= digits);
}

/// What `decimal_digits` writes is a run of one or more digits whose value is
/// the number written.
proof fn digits_spell_their_number(n: nat)
    ensures
        ascii_bytes(decimal_digits(n)).len() > 0,
        all_digits(ascii_bytes(decimal_digits(n))),
        digits_value(ascii_bytes(decimal_digits(n))) == n,
    decreases n,
{
    let bytes = ascii_bytes(decimal_digits(n));
    if n < 10 {
        assert(bytes =~= seq![(48 + n) as u8]);
        assert(bytes.drop_last() =~= Seq::<u8>::empty());
        assert(digits_value(bytes.drop_last()) == 0);
    } else {
        digits_spell_their_number(n / 10);
        let front = ascii_bytes(decimal_digits(n / 10));
        let last = (48 + n % 10) as u8;
        assert(bytes =~= front.push(last));
        assert(bytes.drop_last() =~= front);
        assert forall|i: int| 0 <= i < bytes.len() implies is_digit(#[trigger] bytes[i]) by {
            if i < front.len() {
                assert(bytes[i] == front[i]);
            }
        }
    }
}

/// A longer run of digits never spells a smaller number than its prefix.
proof fn digits_value_grows(bytes: Seq<u8>, shorter: int)
    requires
        0 <= shorter <= bytes.len(),
        all_digits(bytes),
    ensures
        digits_value(bytes.subrange(0, shorter)) <= digits_value(bytes),
    decreases bytes.len() - shorter,
{
    if shorter == bytes.len() {
        assert(bytes.subrange(0, shorter) =~= bytes);
    } else {
        let front = bytes.drop_last();
        assert(front.subrange(0, shorter) =~= bytes.subrange(0, shorter));
        assert(is_digit(bytes[bytes.len() - 1]));
        assert forall|i: int| 0 <= i < front.len() implies is_digit(#[trigger] front[i]) by {
            assert(front[i] == bytes[i]);
        }
        digits_value_grows(front, shorter);
    }
}

/// Reads an unsigned decimal number of at most `max` from `bytes`.
pub fn read_unsigned(bytes: &[u8], max: u64) -> (number: Option<u64>)
    ensures
        number matches Some(n) ==> parse_unsigned(bytes@, max as nat) == Some(n as nat),
        number is None ==> parse_unsigned(bytes@, max as nat) is None,
{
    let start: usize = if bytes.len() > 0 && bytes[0] == 43 {
        1
    } else {
        0
    };
    let ghost digits = without_plus(bytes@);
    if start == bytes.len() {
        return None;
    }
    let mut value: u64 = 0;
    let mut i: usize = start;
    while i < bytes.len()
        invariant
            start <= i <= bytes.len(),
            digits == without_plus(bytes@),
            digits == bytes@.subrange(start as int, bytes.len() as int),
            all_digits(digits.subrange(0, i - start)),
            value == digits_value(digits.subrange(0, i - start)),
            value <= max,
        decreases bytes.len() - i,
    {
        let byte = bytes[i];
        let ghost read = digits.subrange(0, i - start);
        let ghost next = digits.subrange(0, i - start + 1);
        proof {
            assert(next.drop_last() =~= read);
            assert(next.last() == byte);
        }
        if byte < 48 || byte > 57 {
            proof {
                assert(!is_digit(digits[i - start]));
            }
            return None;
        }
        let digit = (byte - 48) as u64;
        proof {
            assert forall|k: int| 0 <= k < next.len() implies is_digit(#[trigger] next[k]) by {
                if k < read.len() {
                    assert(next[k] == read[k]);
                }
            }
            if all_digits(digits) {
                digits_value_grows(digits, i - start + 1);
            }
        }
        if value > max / 10 {
            return None;
        }
        if digit > max - value * 10 {
            return None;
        }
        value = value * 10 + digit;
        i = i + 1;
    }
    proof {
        assert(digits.subrange(0, i - start) =~= digits);
    }
    Some(value)
}

} // verus!
