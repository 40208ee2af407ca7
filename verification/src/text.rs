use vstd::prelude::*;

verus! {

/// The decimal digit character for a value below ten, or a marker outside
/// that range.
pub open spec fn spec_digit(d: int) -> char {
    if d == 0 {
        '0'
    } else if d == 1 {
        '1'
    } else if d == 2 {
        '2'
    } else if d == 3 {
        '3'
    } else if d == 4 {
        '4'
    } else if d == 5 {
        '5'
    } else if d == 6 {
        '6'
    } else if d == 7 {
        '7'
    } else if d == 8 {
        '8'
    } else {
        '9'
    }
}

/// The numeric value of a decimal digit character, or a negative marker for
/// any other character.
pub open spec fn spec_digit_val(c: char) -> int {
    if c == '0' {
        0
    } else if c == '1' {
        1
    } else if c == '2' {
        2
    } else if c == '3' {
        3
    } else if c == '4' {
        4
    } else if c == '5' {
        5
    } else if c == '6' {
        6
    } else if c == '7' {
        7
    } else if c == '8' {
        8
    } else if c == '9' {
        9
    } else {
        -1
    }
}

/// The usual decimal rendering of a natural number, without leading zeros.
pub open spec fn spec_u64_dec(n: nat) -> Seq<char>
    decreases n,
{
    if n < 10 {
        seq![spec_digit(n as int)]
    } else {
        spec_u64_dec(n / 10) + seq![spec_digit((n % 10) as int)]
    }
}

/// The usual decimal rendering of an integer: a minus sign for negative
/// values, then the digits.
pub open spec fn spec_i64_dec(v: int) -> Seq<char> {
    if v < 0 {
        seq!['-'] + spec_u64_dec((-v) as nat)
    } else {
        spec_u64_dec(v as nat)
    }
}

/// A one-character string slice for a decimal digit value.
fn digit_str(d: u64) -> (r: &'static str)
    requires
        d < 10,
    ensures
        r@ == seq![spec_digit(d as int)],
{
    let r = if d == 0 {
        "0"
    } else if d == 1 {
        "1"
    } else if d == 2 {
        "2"
    } else if d == 3 {
        "3"
    } else if d == 4 {
        "4"
    } else if d == 5 {
        "5"
    } else if d == 6 {
        "6"
    } else if d == 7 {
        "7"
    } else if d == 8 {
        "8"
    } else {
        "9"
    };
    proof {
        reveal_strlit("0");
        reveal_strlit("1");
        reveal_strlit("2");
        reveal_strlit("3");
        reveal_strlit("4");
        reveal_strlit("5");
        reveal_strlit("6");
        reveal_strlit("7");
        reveal_strlit("8");
        reveal_strlit("9");
        assert(r@ =~= seq![spec_digit(d as int)]);
    }
    r
}

/// Renders a natural number in decimal.
pub fn u64_to_string(n: u64) -> (s: String)
    ensures
        s@ == spec_u64_dec(n as nat),
    decreases n,
{
    if n < 10 {
        String::from_str(digit_str(n))
    } else {
        let prefix = u64_to_string(n / 10);
        prefix.concat(digit_str(n % 10))
    }
}

/// Renders an integer in decimal, with a minus sign when negative.
pub fn i64_to_string(v: i64) -> (s: String)
    ensures
        s@ == spec_i64_dec(v as int),
{
    if v >= 0 {
        u64_to_string(v as u64)
    } else {
        let magnitude: u64 = if v == i64::MIN {
            9223372036854775808u64
        } else {
            (-v) as u64
        };
        let s = String::from_str("-").concat(u64_to_string(magnitude).as_str());
        proof {
            reveal_strlit("-");
            assert(s@ =~= spec_i64_dec(v as int));
        }
        s
    }
}

/// The digit value of a character, if it is one.
fn digit_val(c: char) -> (r: Option<u64>)
    ensures
        match r {
            Some(d) => spec_digit_val(c) == d as int && d < 10,
            None => spec_digit_val(c) < 0,
        },
{
    if c == '0' {
        Some(0)
    } else if c == '1' {
        Some(1)
    } else if c == '2' {
        Some(2)
    } else if c == '3' {
        Some(3)
    } else if c == '4' {
        Some(4)
    } else if c == '5' {
        Some(5)
    } else if c == '6' {
        Some(6)
    } else if c == '7' {
        Some(7)
    } else if c == '8' {
        Some(8)
    } else if c == '9' {
        Some(9)
    } else {
        None
    }
}

/// Whether every character of `s` is a decimal digit.
pub open spec fn spec_all_digits(s: Seq<char>) -> bool {
    forall|i: int| 0 <= i < s.len() ==> spec_digit_val(#[trigger] s[i]) >= 0
}

/// The value of a string of decimal digits, most significant first.
pub open spec fn spec_digits_val(s: Seq<char>) -> int
    decreases s.len(),
{
    if s.len() == 0 {
        0
    } else {
        spec_digits_val(s.drop_last()) * 10 + spec_digit_val(s.last())
    }
}

/// Why a string failed to parse as an integer, with the same classification
/// std's integer parsing reports.
#[derive(Clone, Copy, Debug, PartialEq, Eq, Structural)]
pub enum IntParseError {
    /// The string was empty.
    Empty,
    /// A character was no decimal digit — a lone sign counts as this, too.
    InvalidDigit,
    /// The value exceeds the largest representable value.
    PosOverflow,
    /// The value is less than the smallest representable value.
    NegOverflow,
}

/// The reason text std's integer parsing attaches to each failure.
pub open spec fn spec_int_error_text(e: IntParseError) -> Seq<char> {
    match e {
        IntParseError::Empty => "cannot parse integer from empty string"@,
        IntParseError::InvalidDigit => "invalid digit found in string"@,
        IntParseError::PosOverflow => "number too large to fit in target type"@,
        IntParseError::NegOverflow => "number too small to fit in target type"@,
    }
}

pub fn int_error_text(e: &IntParseError) -> (r: &'static str)
    ensures
        r@ == spec_int_error_text(*e),
{
    match e {
        IntParseError::Empty => "cannot parse integer from empty string",
        IntParseError::InvalidDigit => "invalid digit found in string",
        IntParseError::PosOverflow => "number too large to fit in target type",
        IntParseError::NegOverflow => "number too small to fit in target type",
    }
}

/// What parsing an optionally signed decimal integer yields: the value when
/// the string is a sign followed by one or more digits and fits in `i64`,
/// and otherwise why not.
pub open spec fn spec_parse_i64(s: Seq<char>) -> Result<int, IntParseError> {
    if s.len() == 0 {
        Err(IntParseError::Empty)
    } else {
        let body = if s[0] == '-' || s[0] == '+' {
            s.drop_first()
        } else {
            s
        };
        if body.len() == 0 || !spec_all_digits(body) {
            Err(IntParseError::InvalidDigit)
        } else {
            let v = if s[0] == '-' {
                -spec_digits_val(body)
            } else {
                spec_digits_val(body)
            };
            if v > i64::MAX as int {
                Err(IntParseError::PosOverflow)
            } else if v < i64::MIN as int {
                Err(IntParseError::NegOverflow)
            } else {
                Ok(v)
            }
        }
    }
}

/// A digit string's value only grows as further digits are read.
proof fn lemma_digits_val_step_grows(v: int, d: int)
    requires
        v > u64::MAX as int,
        d >= 0,
    ensures
        v * 10 + d > u64::MAX as int,
{
    assert(v * 10 >= v) by (nonlinear_arith)
        requires
            v > 0,
    ;
}

/// Every digit string has a non-negative value.
proof fn lemma_digits_val_nonneg(s: Seq<char>)
    requires
        spec_all_digits(s),
    ensures
        spec_digits_val(s) >= 0,
    decreases s.len(),
{
    if s.len() > 0 {
        lemma_digits_val_nonneg(s.drop_last());
        assert(spec_digits_val(s.drop_last()) * 10 >= 0) by (nonlinear_arith)
            requires
                spec_digits_val(s.drop_last()) >= 0,
        ;
    }
}

/// Parses an optionally signed decimal integer, as `str::parse::<i64>`
/// does: the value exactly when the string is well-formed and fits, and
/// otherwise the same failure reason std would report.
pub fn parse_i64(s: &str) -> (r: Result<i64, IntParseError>)
    ensures
        match r {
            Ok(v) => spec_parse_i64(s@) == Ok::<int, IntParseError>(v as int),
            Err(e) => spec_parse_i64(s@) == Err::<int, IntParseError>(e),
        },
{
    let len = s.unicode_len();
    if len == 0 {
        return Err(IntParseError::Empty);
    }
    let first = s.get_char(0);
    let negative = first == '-';
    let start: usize = if first == '-' || first == '+' {
        1
    } else {
        0
    };
    if start == len {
        return Err(IntParseError::InvalidDigit);
    }
    let ghost body = s@.skip(start as int);
    let mut i: usize = start;
    let mut acc: u64 = 0;
    let mut overflow = false;
    while i < len
        invariant
            start <= i <= len,
            start < len,
            len == s@.len(),
            start == 0 || start == 1,
            (s@[0] == '-' || s@[0] == '+') <==> start == 1,
            negative == (s@[0] == '-'),
            body == s@.skip(start as int),
            spec_all_digits(s@.skip(start as int).take(i - start)),
            !overflow ==> acc as int == spec_digits_val(s@.skip(start as int).take(i - start)),
            overflow ==> spec_digits_val(s@.skip(start as int).take(i - start)) > u64::MAX as int,
        decreases len - i,
    {
        let c = s.get_char(i);
        let ghost done = s@.skip(start as int).take(i - start);
        match digit_val(c) {
            None => {
                proof {
                    assert(s@.skip(start as int)[i - start] == c);
                    assert(!spec_all_digits(s@.skip(start as int)));
                    if s@[0] == '-' || s@[0] == '+' {
                        assert(s@.drop_first() =~= s@.skip(start as int));
                    }
                }
                return Err(IntParseError::InvalidDigit);
            },
            Some(d) => {
                proof {
                    assert(done.push(c) =~= s@.skip(start as int).take(i + 1 - start));
                    assert(done.push(c).drop_last() =~= done);
                }
                if overflow {
                    proof {
                        lemma_digits_val_step_grows(spec_digits_val(done), d as int);
                    }
                } else {
                    let wide: u128 = acc as u128 * 10 + d as u128;
                    if wide > u64::MAX as u128 {
                        overflow = true;
                        proof {
                            assert(spec_digits_val(done.push(c)) == acc as int * 10 + d);
                        }
                    } else {
                        acc = wide as u64;
                    }
                }
            },
        }
        i = i + 1;
    }
    proof {
        assert(s@.skip(start as int).take(len - start) =~= s@.skip(start as int));
        if s@[0] == '-' || s@[0] == '+' {
            assert(s@.drop_first() =~= s@.skip(start as int));
        }
        lemma_digits_val_nonneg(s@.skip(start as int));
        assert(s@.skip(start as int).len() > 0);
        if start == 0 {
            assert(s@.skip(0) =~= s@);
        }
    }
    if overflow {
        if negative {
            return Err(IntParseError::NegOverflow);
        } else {
            return Err(IntParseError::PosOverflow);
        }
    }
    if negative {
        if acc > 9223372036854775808u64 {
            Err(IntParseError::NegOverflow)
        } else if acc == 9223372036854775808u64 {
            Ok(i64::MIN)
        } else {
            Ok(-(acc as i64))
        }
    } else {
        if acc > i64::MAX as u64 {
            Err(IntParseError::PosOverflow)
        } else {
            Ok(acc as i64)
        }
    }
}

/// Character-for-character equality of two string slices.
pub fn str_eq(a: &str, b: &str) -> (r: bool)
    ensures
        r == (a@ == b@),
{
    let alen = a.unicode_len();
    let blen = b.unicode_len();
    if alen != blen {
        return false;
    }
    let mut i: usize = 0;
    while i < alen
        invariant
            i <= alen,
            alen == a@.len(),
            alen == blen,
            blen == b@.len(),
            forall|j: int| 0 <= j < i ==> a@[j] == b@[j],
        decreases alen - i,
    {
        if a.get_char(i) != b.get_char(i) {
            return false;
        }
        i = i + 1;
    }
    proof {
        assert(a@ =~= b@);
    }
    true
}

} // verus!
