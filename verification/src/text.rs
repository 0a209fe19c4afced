//! Small helpers over `str` and `String`: comparison, concatenation and the
//! decimal text of an integer.

use vstd::prelude::*;
use vstd::string::StringSliceAdditionalSpecFns;

verus! {

/// Whether two string slices hold the same characters.
pub fn same_text(a: &str, b: &str) -> (r: bool)
    ensures
        r == (a@ == b@),
{
    let left = a.to_owned();
    let right = b.to_owned();
    left == right
}

/// The character that stands for a decimal digit.
pub open spec fn digit_char(d: int) -> char {
    if d == 0 {
        '0'
    } else if d == 1 {
        '1'
    } else if d == 2 {
        '2'
    } else if d == 3 {
        '3'
    } else if d == 4 {
        '4'
    } else if d == 5 {
        '5'
    } else if d == 6 {
        '6'
    } else if d == 7 {
        '7'
    } else if d == 8 {
        '8'
    } else {
        '9'
    }
}

/// The decimal digits of a natural number, most significant first, without
/// leading zeros.
pub open spec fn decimal_digits(n: nat) -> Seq<char>
    decreases n,
{
    if n < 10 {
        seq![digit_char(n as int)]
    } else {
        decimal_digits(n / 10).push(digit_char((n % 10) as int))
    }
}

/// The decimal text of an integer: a minus sign for a negative number, then
/// the digits of its magnitude.
pub open spec fn decimal_text(n: int) -> Seq<char> {
    if n < 0 {
        seq!['-'] + decimal_digits((-n) as nat)
    } else {
        decimal_digits(n as nat)
    }
}

fn digit_str(d: u64) -> (r: &'static str)
    requires
        d < 10,
    ensures
        r@ == seq![digit_char(d as int)],
{
    proof {
        reveal_strlit("0");
        reveal_strlit("1");
        reveal_strlit("2");
        reveal_strlit("3");
        reveal_strlit("4");
        reveal_strlit("5");
        reveal_strlit("6");
        reveal_strlit("7");
        reveal_strlit("8");
        reveal_strlit("9");
    }
    let r = if d == 0 {
        "0"
    } else if d == 1 {
        "1"
    } else if d == 2 {
        "2"
    } else if d == 3 {
        "3"
    } else if d == 4 {
        "4"
    } else if d == 5 {
        "5"
    } else if d == 6 {
        "6"
    } else if d == 7 {
        "7"
    } else if d == 8 {
        "8"
    } else {
        "9"
    };
    r
}

/// Writes a natural number in decimal.
pub fn unsigned_decimal(n: u64) -> (r: String)
    ensures
        r@ == decimal_digits(n as nat),
    decreases n,
{
    if n < 10 {
        digit_str(n).to_owned()
    } else {
        let mut s = unsigned_decimal(n / 10);
        s.append(digit_str(n % 10));
        s
    }
}

/// Writes an integer in decimal, as `{}` formats an `i64`.
pub fn decimal(n: i64) -> (r: String)
    ensures
        r@ == decimal_text(n as int),
{
    if n < 0 {
        let magnitude: u64 = (-(n + 1)) as u64 + 1;
        proof {
            reveal_strlit("-");
        }
        let r = "-".to_owned().concat(unsigned_decimal(magnitude).as_str());
        r
    } else {
        unsigned_decimal(n as u64)
    }
}

/// The digit that a character stands for; 0 for any other character.
pub open spec fn digit_of(c: char) -> int {
    if c == '1' {
        1
    } else if c == '2' {
        2
    } else if c == '3' {
        3
    } else if c == '4' {
        4
    } else if c == '5' {
        5
    } else if c == '6' {
        6
    } else if c == '7' {
        7
    } else if c == '8' {
        8
    } else if c == '9' {
        9
    } else {
        0
    }
}

/// The number that a run of digits denotes, most significant first.
pub open spec fn digits_value(s: Seq<char>) -> int
    decreases s.len(),
{
    if s.len() == 0 {
        0
    } else {
        digits_value(s.drop_last()) * 10 + digit_of(s.last())
    }
}

/// The digits of a number denote that number.
pub proof fn lemma_digits_value(n: nat)
    ensures
        digits_value(decimal_digits(n)) == n,
    decreases n,
{
    if n < 10 {
        let s = decimal_digits(n);
        assert(digits_value(s.drop_last()) == 0);
    } else {
        lemma_digits_value(n / 10);
        let s = decimal_digits(n);
        assert(s.drop_last() =~= decimal_digits(n / 10));
    }
}

/// The digits of a number are ASCII digits, and there is at least one.
pub proof fn lemma_digits_shape(n: nat)
    ensures
        decimal_digits(n).len() >= 1,
        forall|i: int|
            0 <= i < decimal_digits(n).len() ==> '0' <= #[trigger] decimal_digits(n)[i] <= '9',
    decreases n,
{
    if n >= 10 {
        lemma_digits_shape(n / 10);
    }
}

/// A run of digits denotes at least what any of its prefixes denotes.
proof fn lemma_digits_value_grows(s: Seq<char>, k: int)
    requires
        0 <= k <= s.len(),
    ensures
        0 <= digits_value(s.take(k)) <= digits_value(s),
    decreases s.len() - k,
{
    lemma_digits_value_nonnegative(s.take(k));
    if k < s.len() {
        lemma_digits_value_grows(s, k + 1);
        assert(s.take(k + 1).drop_last() =~= s.take(k));
    } else {
        assert(s.take(k) =~= s);
    }
}

proof fn lemma_digits_value_nonnegative(s: Seq<char>)
    ensures
        0 <= digits_value(s),
    decreases s.len(),
{
    if s.len() > 0 {
        lemma_digits_value_nonnegative(s.drop_last());
    }
}

/// A text is the decimal form of at most one integer, and that integer is
/// what its digits denote.
pub proof fn lemma_decimal_text_value(n: int, text: Seq<char>)
    requires
        decimal_text(n) == text,
    ensures
        text.len() >= 1,
        n < 0 <==> text[0] == '-',
        n >= 0 ==> digits_value(text) == n,
        n < 0 ==> digits_value(text.skip(1)) == -n,
        forall|i: int| 0 <= i < text.len() ==> '\0' <= #[trigger] text[i] <= '\u{7f}',
{
    if n < 0 {
        let m = (-n) as nat;
        lemma_digits_shape(m);
        lemma_digits_value(m);
        assert(text.skip(1) =~= decimal_digits(m));
    } else {
        lemma_digits_shape(n as nat);
        lemma_digits_value(n as nat);
    }
}

/// Two integers with the same decimal form are the same integer.
pub proof fn lemma_decimal_text_unique(a: int, b: int)
    requires
        decimal_text(a) == decimal_text(b),
    ensures
        a == b,
{
    lemma_decimal_text_value(a, decimal_text(a));
    lemma_decimal_text_value(b, decimal_text(a));
}

/// Reads the decimal form of an integer back: the inverse of `decimal`. A
/// text that `decimal` writes for no `i64` (a plus sign, leading zeros,
/// `-0`, other characters, a number out of range) gives nothing.
pub fn parse_decimal(text: &str) -> (r: Option<i64>)
    ensures
        match r {
            Some(n) => decimal_text(n as int) == text@,
            None => forall|n: int| i64::MIN <= n <= i64::MAX ==> decimal_text(n) != text@,
        },
{
    proof {
        assert forall|n: int| decimal_text(n) == text@ implies text@.len() >= 1
            && vstd::utf8::is_ascii_chars(text@) by {
            lemma_decimal_text_value(n, text@);
        }
    }
    if !text.is_ascii() {
        return None;
    }
    proof {
        vstd::string::is_ascii_spec_bytes(text);
    }
    let bytes = text.as_bytes();
    let len = bytes.len();
    if len == 0 {
        return None;
    }
    let negative = bytes[0] == 45u8;
    let start: usize = if negative {
        1
    } else {
        0
    };
    let ghost digits = text@.skip(start as int);
    let mut acc: u64 = 0;
    let mut i: usize = start;
    while i < len
        invariant
            start <= i <= len,
            len == text@.len(),
            bytes@ == text.spec_bytes(),
            text.is_ascii(),
            digits == text@.skip(start as int),
            negative == (text@[0] == '-'),
            start == if negative {
                1int
            } else {
                0int
            },
            acc == digits_value(digits.take(i - start)),
            acc <= 9223372036854775809,
        decreases len - i,
    {
        proof {
            vstd::string::is_ascii_spec_bytes(text);
        }
        let b = bytes[i];
        let d: u64 = if 48 <= b && b <= 57 {
            (b - 48) as u64
        } else {
            0
        };
        proof {
            let next = digits.take(i - start + 1);
            assert(next.drop_last() =~= digits.take(i - start));
            assert(next.last() == text@[i as int]);
            assert(d == digit_of(text@[i as int]));
            assert(digits_value(next) == acc * 10 + d);
            lemma_digits_value_grows(digits, i - start + 1);
        }
        if acc > 922337203685477580 {
            proof {
                assert forall|n: int| i64::MIN <= n <= i64::MAX implies decimal_text(n)
                    != text@ by {
                    if decimal_text(n) == text@ {
                        lemma_decimal_text_value(n, text@);
                        assert(text@.skip(0) =~= text@);
                    }
                }
            }
            return None;
        }
        acc = acc * 10 + d;
        i = i + 1;
    }
    assert(digits.take(len - start) =~= digits);
    let value: i64 = if negative {
        if acc > 9223372036854775808 {
            proof {
                assert forall|n: int| i64::MIN <= n <= i64::MAX implies decimal_text(n)
                    != text@ by {
                    if decimal_text(n) == text@ {
                        lemma_decimal_text_value(n, text@);
                    }
                }
            }
            return None;
        }
        if acc == 9223372036854775808 {
            i64::MIN
        } else {
            -(acc as i64)
        }
    } else {
        if acc > 9223372036854775807 {
            proof {
                assert forall|n: int| i64::MIN <= n <= i64::MAX implies decimal_text(n)
                    != text@ by {
                    if decimal_text(n) == text@ {
                        lemma_decimal_text_value(n, text@);
                        assert(text@.skip(0) =~= text@);
                    }
                }
            }
            return None;
        }
        acc as i64
    };
    let written = decimal(value);
    if same_text(written.as_str(), text) {
        Some(value)
    } else {
        proof {
            assert forall|n: int| i64::MIN <= n <= i64::MAX implies decimal_text(n)
                != text@ by {
                if decimal_text(n) == text@ {
                    lemma_decimal_text_value(n, text@);
                    assert(text@.skip(0) =~= text@);
                    assert(n == value);
                }
            }
        }
        None
    }
}

/// Two natural numbers with the same digits are the same number.
pub proof fn lemma_decimal_digits_unique(a: nat, b: nat)
    requires
        decimal_digits(a) == decimal_digits(b),
    ensures
        a == b,
{
    lemma_digits_value(a);
    lemma_digits_value(b);
}

/// Reads the digits of a natural number back: the inverse of
/// `unsigned_decimal`. A text that `unsigned_decimal` writes for no `u64`
/// (a sign, leading zeros, other characters, a number out of range) gives
/// nothing.
pub fn parse_natural(text: &str) -> (r: Option<u64>)
    ensures
        match r {
            Some(n) => decimal_digits(n as nat) == text@,
            None => forall|n: nat| n <= u64::MAX ==> decimal_digits(n) != text@,
        },
{
    proof {
        assert forall|n: nat| decimal_digits(n) == text@ implies text@.len() >= 1
            && vstd::utf8::is_ascii_chars(text@) && digits_value(text@) == n by {
            lemma_digits_shape(n);
            lemma_digits_value(n);
        }
    }
    if !text.is_ascii() {
        return None;
    }
    proof {
        vstd::string::is_ascii_spec_bytes(text);
    }
    let bytes = text.as_bytes();
    let len = bytes.len();
    let mut acc: u64 = 0;
    let mut i: usize = 0;
    while i < len
        invariant
            i <= len,
            len == text@.len(),
            bytes@ == text.spec_bytes(),
            text.is_ascii(),
            acc == digits_value(text@.take(i as int)),
            forall|n: nat|
                decimal_digits(n) == text@ ==> text@.len() >= 1 && digits_value(text@) == n,
        decreases len - i,
    {
        proof {
            vstd::string::is_ascii_spec_bytes(text);
        }
        let b = bytes[i];
        let d: u64 = if 48 <= b && b <= 57 {
            (b - 48) as u64
        } else {
            0
        };
        proof {
            let next = text@.take(i + 1);
            assert(next.drop_last() =~= text@.take(i as int));
            assert(next.last() == text@[i as int]);
            assert(d == digit_of(text@[i as int]));
            assert(digits_value(next) == acc * 10 + d);
            lemma_digits_value_grows(text@, i + 1);
        }
        if acc > 1844674407370955161 || (acc == 1844674407370955161 && d > 5) {
            return None;
        }
        acc = acc * 10 + d;
        i = i + 1;
    }
    assert(text@.take(len as int) =~= text@);
    let written = unsigned_decimal(acc);
    if same_text(written.as_str(), text) {
        Some(acc)
    } else {
        None
    }
}

} // verus!
