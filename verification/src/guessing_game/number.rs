use vstd::prelude::*;
use vstd::string::is_ascii_spec_bytes;
use vstd::utf8::is_ascii_chars;

verus! {

/// Whether `c` is one of the ten decimal digits.
pub open spec fn is_digit(c: char) -> bool {
    '0' <= c <= '9'
}

/// The number that the decimal digit `c` stands for.
pub open spec fn digit_value(c: char) -> nat {
    (c as nat - '0' as nat) as nat
}

/// The decimal digit that stands for `d`, for `d` below ten.
pub open spec fn digit_char(d: nat) -> char {
    (d + '0' as nat) as char
}

/// The number written by a sequence of decimal digits, most significant first.
pub open spec fn digits_value(digits: Seq<char>) -> nat
    decreases digits.len(),
{
    if digits.len() == 0 {
        0
    } else {
        digits_value(digits.drop_last()) * 10 + digit_value(digits.last())
    }
}

/// The shortest decimal notation of `n`.
pub open spec fn decimal_digits(n: nat) -> Seq<char>
    decreases n,
{
    if n < 10 {
        seq![digit_char(n)]
    } else {
        decimal_digits(n / 10).push(digit_char(n % 10))
    }
}

/// Whether `digits` holds decimal digits and nothing else.
pub open spec fn all_digits(digits: Seq<char>) -> bool {
    forall|i: int| 0 <= i < digits.len() ==> is_digit(#[trigger] digits[i])
}

/// What is left of `text` once one leading plus sign, if any, is dropped.
pub open spec fn without_sign(text: Seq<char>) -> Seq<char> {
    if text.len() > 0 && text[0] == '+' {
        text.drop_first()
    } else {
        text
    }
}

/// The number that `text` denotes as a `u32`: an optional plus sign followed
/// by at least one decimal digit and nothing else, with a value that fits.
pub open spec fn parsed_u32(text: Seq<char>) -> Option<u32> {
    let digits = without_sign(text);
    if digits.len() > 0 && all_digits(digits) && digits_value(digits) <= u32::MAX {
        Some(digits_value(digits) as u32)
    } else {
        None
    }
}

/// The integer that `text` denotes: an optional plus or minus sign followed
/// by at least one decimal digit and nothing else. There is no limit on its
/// size.
pub open spec fn parsed_integer(text: Seq<char>) -> Option<int> {
    if text.len() > 0 && text[0] == '-' {
        let digits = text.drop_first();
        if digits.len() > 0 && all_digits(digits) {
            Some(-(digits_value(digits) as int))
        } else {
            None
        }
    } else {
        let digits = without_sign(text);
        if digits.len() > 0 && all_digits(digits) {
            Some(digits_value(digits) as int)
        } else {
            None
        }
    }
}

/// On which side of zero an integer lies.
#[derive(Debug, Clone, Copy, PartialEq, Eq)]
pub enum Sign {
    Negative,
    Zero,
    Positive,
}

/// The side of zero on which `n` lies.
pub open spec fn sign_of(n: int) -> Sign {
    if n < 0 {
        Sign::Negative
    } else if n == 0 {
        Sign::Zero
    } else {
        Sign::Positive
    }
}

/// Whether `c` is white space: one of the code points that carry the Unicode
/// property White_Space.
pub open spec fn is_white_space(c: char) -> bool {
    let code = c as u32;
    ||| 0x09 <= code <= 0x0d
    ||| code == 0x20
    ||| code == 0x85
    ||| code == 0xa0
    ||| code == 0x1680
    ||| 0x2000 <= code <= 0x200a
    ||| code == 0x2028
    ||| code == 0x2029
    ||| code == 0x202f
    ||| code == 0x205f
    ||| code == 0x3000
}

/// `text` without the white space that it begins with.
pub open spec fn trimmed_start(text: Seq<char>) -> Seq<char>
    decreases text.len(),
{
    if text.len() > 0 && is_white_space(text.first()) {
        trimmed_start(text.drop_first())
    } else {
        text
    }
}

/// `text` without the white space that it ends with.
pub open spec fn trimmed_end(text: Seq<char>) -> Seq<char>
    decreases text.len(),
{
    if text.len() > 0 && is_white_space(text.last()) {
        trimmed_end(text.drop_last())
    } else {
        text
    }
}

/// `text` without the white space at either end.
pub open spec fn trimmed(text: Seq<char>) -> Seq<char> {
    trimmed_end(trimmed_start(text))
}

/// The standard library's error for a failed integer parse, carried as an
/// opaque value.
#[verifier::external_type_specification]
#[verifier::external_body]
pub struct ExParseIntError(std::num::ParseIntError);

/// `str::trim`: the slice of `text` without its leading and trailing white
/// space, where white space is what carries the Unicode property White_Space.
/// The contract spells that property out as `is_white_space`.
#[verifier::external_body]
pub(crate) fn trim_text(text: &str) -> (inner: &str)
    ensures
        inner@ == trimmed(text@),
{
    text.trim()
}

/// `str::parse::<u32>`: succeeds exactly on an optional plus sign followed by
/// decimal digits whose value fits in a `u32`, and then returns that value.
/// Nothing is claimed about the error.
#[verifier::external_body]
pub(crate) fn parse_u32(text: &str) -> (parsed: Result<u32, std::num::ParseIntError>)
    ensures
        parsed is Ok <==> parsed_u32(text@) is Some,
        parsed is Ok ==> Some(parsed->Ok_0) == parsed_u32(text@),
{
    text.parse::<u32>()
}

/// `ToString::to_string` on a `ParseIntError`: the diagnostic that the
/// standard library words for a failed parse. Nothing is claimed about it.
#[verifier::external_body]
pub(crate) fn diagnostic_text(error: &std::num::ParseIntError) -> String {
    error.to_string()
}

/// A digit appended to a sequence of digits counts ones and moves the rest up
/// by a factor of ten, so the longer sequence writes zero only if the
/// shorter one does and the digit is a zero.
proof fn lemma_value_of_appended_digit(digits: Seq<char>, digit: char)
    requires
        is_digit(digit),
    ensures
        digits_value(digits.push(digit)) == digits_value(digits) * 10 + digit_value(digit),
        digits_value(digits.push(digit)) == 0 <==> digits_value(digits) == 0 && digit == '0',
{
    assert(digits.push(digit).drop_last() =~= digits);
}

/// A text that denotes an integer holds a sign and digits only, all of them
/// ASCII characters.
proof fn lemma_integer_text_is_ascii(text: Seq<char>)
    requires
        parsed_integer(text) is Some,
    ensures
        is_ascii_chars(text),
{
    assert forall|i: int| 0 <= i < text.len() implies '\0' <= #[trigger] text[i] <= '\u{7f}' by {
        if text[0] == '-' || text[0] == '+' {
            if i > 0 {
                assert(is_digit(text.drop_first()[i - 1]));
            }
        } else {
            assert(is_digit(text[i]));
        }
    }
}

/// Tells whether `text` denotes an integer, of any size, and if so on which
/// side of zero it lies.
pub fn integer_sign(text: &str) -> (sign: Option<Sign>)
    ensures
        sign == match parsed_integer(text@) {
            Some(n) => Some(sign_of(n)),
            None => None,
        },
{
    if !text.is_ascii() {
        proof {
            if parsed_integer(text@) is Some {
                lemma_integer_text_is_ascii(text@);
            }
        }
        return None;
    }
    proof {
        is_ascii_spec_bytes(text);
    }
    let bytes = text.as_bytes();
    let len = bytes.len();
    if len == 0 {
        return None;
    }
    let first = bytes[0];
    assert(first == '-' as u8 <==> text@[0] == '-');
    assert(first == '+' as u8 <==> text@[0] == '+');
    let negative = first == '-' as u8;
    let start: usize = if first == '-' as u8 || first == '+' as u8 {
        1
    } else {
        0
    };
    let ghost digits = text@.subrange(start as int, len as int);
    proof {
        if negative {
            assert(digits =~= text@.drop_first());
        } else {
            assert(digits =~= without_sign(text@));
        }
    }
    if start == len {
        return None;
    }
    let mut index: usize = start;
    let mut nonzero = false;
    while index < len
        invariant
            start <= index <= len,
            len == text@.len(),
            is_ascii_chars(text@),
            bytes@ == Seq::new(text@.len(), |i: int| text@[i] as u8),
            digits == text@.subrange(start as int, len as int),
            negative <==> text@[0] == '-',
            negative ==> digits == text@.drop_first(),
            !negative ==> digits == without_sign(text@),
            all_digits(digits.subrange(0, index - start)),
            nonzero <==> digits_value(digits.subrange(0, index - start)) != 0,
        decreases len - index,
    {
        let byte = bytes[index];
        let ghost c = digits[index - start];
        assert(byte == c as u8 && c <= '\u{7f}');
        if byte < '0' as u8 || byte > '9' as u8 {
            assert(!is_digit(c));
            return None;
        }
        if byte != '0' as u8 {
            nonzero = true;
        }
        proof {
            let seen = digits.subrange(0, index - start);
            assert(digits.subrange(0, index - start + 1) =~= seen.push(c));
            lemma_value_of_appended_digit(seen, c);
        }
        index += 1;
    }
    proof {
        assert(digits.subrange(0, index - start) =~= digits);
    }
    if !nonzero {
        Some(Sign::Zero)
    } else if negative {
        Some(Sign::Negative)
    } else {
        Some(Sign::Positive)
    }
}

/// The one-character text of the decimal digit for `d`.
fn digit_text(d: u32) -> (text: &'static str)
    requires
        d < 10,
    ensures
        text@ == seq![digit_char(d as nat)],
{
    let text = match d {
        0 => {
            proof {
                reveal_strlit("0");
            }
            "0"
        },
        1 => {
            proof {
                reveal_strlit("1");
            }
            "1"
        },
        2 => {
            proof {
                reveal_strlit("2");
            }
            "2"
        },
        3 => {
            proof {
                reveal_strlit("3");
            }
            "3"
        },
        4 => {
            proof {
                reveal_strlit("4");
            }
            "4"
        },
        5 => {
            proof {
                reveal_strlit("5");
            }
            "5"
        },
        6 => {
            proof {
                reveal_strlit("6");
            }
            "6"
        },
        7 => {
            proof {
                reveal_strlit("7");
            }
            "7"
        },
        8 => {
            proof {
                reveal_strlit("8");
            }
            "8"
        },
        _ => {
            proof {
                reveal_strlit("9");
            }
            "9"
        },
    };
    assert(text@ =~= seq![digit_char(d as nat)]);
    text
}

/// Writes `n` in decimal, without sign or leading zeros.
pub fn decimal_text(n: u32) -> (text: String)
    ensures
        text@ == decimal_digits(n as nat),
    decreases n,
{
    if n < 10 {
        digit_text(n).to_owned()
    } else {
        let mut text = decimal_text(n / 10);
        text.append(digit_text(n % 10));
        assert(text@ =~= decimal_digits(n as nat));
        text
    }
}

} // verus!
