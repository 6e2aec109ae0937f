//! Numbers in decimal, as texts.
use vstd::prelude::*;

use crate::text;

verus! {

/// The digit character of `d`.
pub open spec fn digit(d: int) -> char
    recommends
        0 <= d <= 9,
{
    (d + 48) as char
}

/// `n` in decimal, without leading zeros.
pub open spec fn decimal(n: nat) -> Seq<char>
    decreases n,
{
    if n < 10 {
        seq![digit(n as int)]
    } else {
        decimal(n / 10).push(digit((n % 10) as int))
    }
}

/// `n` in decimal, with a minus sign where it is negative.
pub open spec fn signed_decimal(n: int) -> Seq<char> {
    if n < 0 {
        "-"@ + decimal((-n) as nat)
    } else {
        decimal(n as nat)
    }
}

/// `n` in decimal, with leading zeros up to four digits.
pub open spec fn decimal4(n: nat) -> Seq<char> {
    if n < 10 {
        "000"@ + decimal(n)
    } else if n < 100 {
        "00"@ + decimal(n)
    } else if n < 1000 {
        "0"@ + decimal(n)
    } else {
        decimal(n)
    }
}

/// Why a text is no number.
#[derive(Debug, Clone, Copy, PartialEq, Eq, Structural)]
pub enum NumberError {
    Empty,
    InvalidDigit,
    TooLarge,
    TooSmall,
}

impl NumberError {
    /// The error in words.
    pub open spec fn text(self) -> Seq<char> {
        match self {
            NumberError::Empty => "cannot parse integer from empty string"@,
            NumberError::InvalidDigit => "invalid digit found in string"@,
            NumberError::TooLarge => "number too large to fit in target type"@,
            NumberError::TooSmall => "number too small to fit in target type"@,
        }
    }

    /// The error in words.
    pub fn message(&self) -> (out: String)
        ensures
            out@ == self.text(),
    {
        match self {
            NumberError::Empty => "cannot parse integer from empty string".to_owned(),
            NumberError::InvalidDigit => "invalid digit found in string".to_owned(),
            NumberError::TooLarge => "number too large to fit in target type".to_owned(),
            NumberError::TooSmall => "number too small to fit in target type".to_owned(),
        }
    }
}

/// The number that the digits of `s` continue, `seen` standing for the digits already read. The
/// first character that is no digit, or that takes the number past `limit`, decides the error.
pub open spec fn digits_value(seen: int, s: Seq<char>, limit: int) -> Result<int, NumberError>
    decreases s.len(),
{
    if s.len() == 0 {
        Ok(seen)
    } else if !text::is_digit(s[0]) {
        Err(NumberError::InvalidDigit)
    } else if seen * 10 + (s[0] as int - 48) > limit {
        Err(NumberError::TooLarge)
    } else {
        digits_value(seen * 10 + (s[0] as int - 48), s.skip(1), limit)
    }
}

/// The number up to `limit` that `s` spells: digits, with or without a plus sign before them.
pub open spec fn unsigned_value(s: Seq<char>, limit: int) -> Result<int, NumberError> {
    if s.len() == 0 {
        Err(NumberError::Empty)
    } else if s[0] == '+' && s.len() > 1 {
        digits_value(0, s.skip(1), limit)
    } else {
        digits_value(0, s, limit)
    }
}

/// The 32-bit signed number that `s` spells: digits, with or without a sign before them.
pub open spec fn signed_value(s: Seq<char>) -> Result<int, NumberError> {
    if s.len() > 1 && s[0] == '-' {
        match digits_value(0, s.skip(1), 0x8000_0000) {
            Ok(v) => Ok(-v),
            Err(NumberError::TooLarge) => Err(NumberError::TooSmall),
            Err(e) => Err(e),
        }
    } else {
        unsigned_value(s, i32::MAX as int)
    }
}

fn digit_text(d: u64) -> (out: &'static str)
    requires
        d <= 9,
    ensures
        out@ == seq![digit(d as int)],
{
    proof {
        reveal_strlit("0");
        reveal_strlit("1");
        reveal_strlit("2");
        reveal_strlit("3");
        reveal_strlit("4");
        reveal_strlit("5");
        reveal_strlit("6");
        reveal_strlit("7");
        reveal_strlit("8");
        reveal_strlit("9");
    }
    let out: &'static str = if d == 0 {
        "0"
    } else if d == 1 {
        "1"
    } else if d == 2 {
        "2"
    } else if d == 3 {
        "3"
    } else if d == 4 {
        "4"
    } else if d == 5 {
        "5"
    } else if d == 6 {
        "6"
    } else if d == 7 {
        "7"
    } else if d == 8 {
        "8"
    } else {
        "9"
    };
    assert(out@ =~= seq![digit(d as int)]);
    out
}

/// `n` in decimal.
pub fn decimal_text(n: u64) -> (out: String)
    ensures
        out@ == decimal(n as nat),
    decreases n,
{
    if n < 10 {
        digit_text(n).to_owned()
    } else {
        let mut out: String = decimal_text(n / 10);
        out.append(digit_text(n % 10));
        assert(out@ =~= decimal(n as nat / 10).push(digit((n as nat % 10) as int)));
        out
    }
}

/// `n` in decimal, with a minus sign where it is negative.
pub fn signed_text(n: i32) -> (out: String)
    ensures
        out@ == signed_decimal(n as int),
{
    if n < 0 {
        let mut out: String = "-".to_owned();
        let size: i64 = -(n as i64);
        out.append(decimal_text(size as u64).as_str());
        out
    } else {
        decimal_text(n as u64)
    }
}

/// `n` in decimal, with leading zeros up to four digits.
pub fn decimal4_text(n: u64) -> (out: String)
    ensures
        out@ == decimal4(n as nat),
{
    let mut out: String = (if n < 10 {
        "000"
    } else if n < 100 {
        "00"
    } else if n < 1000 {
        "0"
    } else {
        ""
    }).to_owned();
    proof {
        reveal_strlit("");
        assert(""@ + decimal(n as nat) =~= decimal(n as nat));
    }
    out.append(decimal_text(n).as_str());
    out
}

/// Reads the digits of `chars` from `from` on.
fn read_digits(chars: &Vec<char>, from: usize, limit: u64) -> (out: Result<u64, NumberError>)
    requires
        from <= chars.len(),
    ensures
        match out {
            Ok(v) => digits_value(0, chars@.skip(from as int), limit as int) == Ok::<
                int,
                NumberError,
            >(v as int) && v <= limit,
            Err(e) => digits_value(0, chars@.skip(from as int), limit as int) == Err::<
                int,
                NumberError,
            >(e),
        },
{
    let mut value: u64 = 0;
    let mut i: usize = from;
    while i < chars.len()
        invariant
            from <= i <= chars.len(),
            value <= limit,
            digits_value(0, chars@.skip(from as int), limit as int) == digits_value(
                value as int,
                chars@.skip(i as int),
                limit as int,
            ),
        decreases chars.len() - i,
    {
        let c: char = chars[i];
        assert(chars@.skip(i as int)[0] == c);
        assert(chars@.skip(i as int).skip(1) =~= chars@.skip(i + 1));
        if c < '0' || c > '9' {
            return Err(NumberError::InvalidDigit);
        }
        let next: u128 = value as u128 * 10 + (c as u32 - 48) as u128;
        if next > limit as u128 {
            return Err(NumberError::TooLarge);
        }
        value = next as u64;
        i = i + 1;
    }
    Ok(value)
}

fn read_unsigned(s: &str, limit: u64) -> (out: Result<u64, NumberError>)
    ensures
        match out {
            Ok(v) => unsigned_value(s@, limit as int) == Ok::<int, NumberError>(v as int) && v
                <= limit,
            Err(e) => unsigned_value(s@, limit as int) == Err::<int, NumberError>(e),
        },
{
    let chars: Vec<char> = text::chars_of(s);
    if chars.len() == 0 {
        return Err(NumberError::Empty);
    }
    if chars[0] == '+' && chars.len() > 1 {
        return read_digits(&chars, 1, limit);
    }
    assert(chars@.skip(0) =~= chars@);
    read_digits(&chars, 0, limit)
}

/// The 64-bit number that `s` spells.
pub fn parse_u64(s: &str) -> (out: Result<u64, NumberError>)
    ensures
        match out {
            Ok(v) => unsigned_value(s@, u64::MAX as int) == Ok::<int, NumberError>(v as int),
            Err(e) => unsigned_value(s@, u64::MAX as int) == Err::<int, NumberError>(e),
        },
{
    read_unsigned(s, u64::MAX)
}

/// The 32-bit number that `s` spells.
pub fn parse_u32(s: &str) -> (out: Result<u32, NumberError>)
    ensures
        match out {
            Ok(v) => unsigned_value(s@, u32::MAX as int) == Ok::<int, NumberError>(v as int),
            Err(e) => unsigned_value(s@, u32::MAX as int) == Err::<int, NumberError>(e),
        },
{
    match read_unsigned(s, u32::MAX as u64) {
        Ok(v) => Ok(v as u32),
        Err(e) => Err(e),
    }
}

/// The 32-bit signed number that `s` spells.
pub fn parse_i32(s: &str) -> (out: Result<i32, NumberError>)
    ensures
        match out {
            Ok(v) => signed_value(s@) == Ok::<int, NumberError>(v as int),
            Err(e) => signed_value(s@) == Err::<int, NumberError>(e),
        },
{
    let chars: Vec<char> = text::chars_of(s);
    if chars.len() > 1 && chars[0] == '-' {
        match read_digits(&chars, 1, 0x8000_0000) {
            Ok(v) => Ok((-(v as i64)) as i32),
            Err(NumberError::TooLarge) => Err(NumberError::TooSmall),
            Err(e) => Err(e),
        }
    } else {
        match read_unsigned(s, i32::MAX as u64) {
            Ok(v) => Ok(v as i32),
            Err(e) => Err(e),
        }
    }
}

/// The decimal text of a number is made of digits.
pub proof fn decimal_is_digits(n: nat)
    ensures
        decimal(n).len() > 0,
        forall|i: int| 0 <= i < decimal(n).len() ==> text::is_digit(#[trigger] decimal(n)[i]),
    decreases n,
{
    if n >= 10 {
        decimal_is_digits(n / 10);
    }
}

proof fn lemma_digits_value_push(seen: int, s: Seq<char>, c: char, limit: int)
    requires
        digits_value(seen, s, limit) is Ok,
        text::is_digit(c),
    ensures
        digits_value(seen, s.push(c), limit) == ({
            let v = digits_value(seen, s, limit)->Ok_0 * 10 + (c as int - 48);
            if v > limit {
                Err::<int, NumberError>(NumberError::TooLarge)
            } else {
                Ok::<int, NumberError>(v)
            }
        }),
    decreases s.len(),
{
    reveal_with_fuel(digits_value, 2);
    if s.len() == 0 {
        assert(s.push(c).skip(1) =~= Seq::<char>::empty());
    } else {
        assert(s.push(c).skip(1) =~= s.skip(1).push(c));
        lemma_digits_value_push(seen * 10 + (s[0] as int - 48), s.skip(1), c, limit);
    }
}

proof fn lemma_decimal_value(n: nat, limit: int)
    requires
        n <= limit,
    ensures
        digits_value(0, decimal(n), limit) == Ok::<int, NumberError>(n as int),
    decreases n,
{
    if n < 10 {
        reveal_with_fuel(digits_value, 2);
        assert(decimal(n).skip(1) =~= Seq::<char>::empty());
    } else {
        lemma_decimal_value(n / 10, limit);
        lemma_digits_value_push(0, decimal(n / 10), digit((n % 10) as int), limit);
    }
}

/// Reading back the decimal text of a number gives the number, for every number within the
/// limit; above the limit the text is refused as too large.
pub proof fn decimal_reads_back(n: nat, limit: int)
    requires
        0 <= limit,
    ensures
        n <= limit ==> unsigned_value(decimal(n), limit) == Ok::<int, NumberError>(n as int),
        n > limit ==> unsigned_value(decimal(n), limit) == Err::<int, NumberError>(
            NumberError::TooLarge,
        ),
    decreases n,
{
    decimal_is_digits(n);
    assert(text::is_digit(decimal(n)[0]));
    if n <= limit {
        lemma_decimal_value(n, limit);
    } else {
        lemma_decimal_too_large(n, limit);
    }
}

proof fn lemma_digits_value_stuck(seen: int, s: Seq<char>, c: char, limit: int)
    requires
        digits_value(seen, s, limit) == Err::<int, NumberError>(NumberError::TooLarge),
    ensures
        digits_value(seen, s.push(c), limit) == Err::<int, NumberError>(NumberError::TooLarge),
    decreases s.len(),
{
    if s.len() > 0 {
        assert(s.push(c)[0] == s[0]);
        assert(s.push(c).skip(1) =~= s.skip(1).push(c));
        if text::is_digit(s[0]) && seen * 10 + (s[0] as int - 48) <= limit {
            lemma_digits_value_stuck(seen * 10 + (s[0] as int - 48), s.skip(1), c, limit);
        }
    }
}

proof fn lemma_decimal_too_large(n: nat, limit: int)
    requires
        0 <= limit < n,
    ensures
        digits_value(0, decimal(n), limit) == Err::<int, NumberError>(NumberError::TooLarge),
    decreases n,
{
    if n < 10 {
        reveal_with_fuel(digits_value, 2);
    } else if n / 10 <= limit {
        lemma_decimal_value(n / 10, limit);
        lemma_digits_value_push(0, decimal(n / 10), digit((n % 10) as int), limit);
    } else {
        lemma_decimal_too_large(n / 10, limit);
        lemma_digits_value_stuck(0, decimal(n / 10), digit((n % 10) as int), limit);
    }
}

proof fn lemma_zero_first(s: Seq<char>, limit: int)
    requires
        0 <= limit,
    ensures
        digits_value(0, seq!['0'] + s, limit) == digits_value(0, s, limit),
{
    assert((seq!['0'] + s).skip(1) =~= s);
}

/// The text with leading zeros reads back like the one without, and has four digits at least.
pub proof fn padded_decimal_reads_back(n: nat, limit: int)
    requires
        n <= limit,
    ensures
        unsigned_value(decimal4(n), limit) == Ok::<int, NumberError>(n as int),
        decimal4(n).len() >= 4,
        n < 10000 ==> decimal4(n).len() == 4,
        forall|i: int| 0 <= i < decimal4(n).len() ==> text::is_digit(#[trigger] decimal4(n)[i]),
{
    reveal_strlit("000");
    reveal_strlit("00");
    reveal_strlit("0");
    reveal_with_fuel(decimal, 5);
    decimal_is_digits(n);
    lemma_decimal_value(n, limit);
    let d = decimal(n);
    assert("0"@ + d =~= seq!['0'] + d);
    assert("00"@ + d =~= seq!['0'] + (seq!['0'] + d));
    assert("000"@ + d =~= seq!['0'] + (seq!['0'] + (seq!['0'] + d)));
    lemma_zero_first(d, limit);
    lemma_zero_first(seq!['0'] + d, limit);
    lemma_zero_first(seq!['0'] + (seq!['0'] + d), limit);
    assert(d.len() >= 1);
    if n >= 1000 {
        decimal_is_digits(n / 1000);
        assert(decimal(n / 10).len() == decimal(n).len() - 1);
        assert(decimal(n / 10 / 10).len() == decimal(n).len() - 2);
        assert(decimal(n / 10 / 10 / 10).len() == decimal(n).len() - 3);
        decimal_is_digits(n / 10 / 10 / 10);
    }
    assert forall|i: int| 0 <= i < decimal4(n).len() implies text::is_digit(
        #[trigger] decimal4(n)[i],
    ) by {
        let pad = decimal4(n).len() - d.len();
        if i >= pad {
            assert(decimal4(n)[i] == d[i - pad]);
        }
    }
    assert(text::is_digit(decimal4(n)[0]));
}

/// Reading back the text of a 32-bit signed number gives the number.
pub proof fn signed_decimal_reads_back(n: i32)
    ensures
        signed_value(signed_decimal(n as int)) == Ok::<int, NumberError>(n as int),
{
    reveal_strlit("-");
    if n < 0 {
        let size = (-n) as nat;
        decimal_is_digits(size);
        lemma_decimal_value(size, 0x8000_0000);
        assert(("-"@ + decimal(size)).skip(1) =~= decimal(size));
    } else {
        decimal_is_digits(n as nat);
        assert(text::is_digit(decimal(n as nat)[0]));
        decimal_reads_back(n as nat, i32::MAX as int);
    }
}

/// Different numbers have different texts.
pub proof fn decimals_tell_numbers_apart(a: nat, b: nat)
    requires
        decimal(a) == decimal(b),
    ensures
        a == b,
{
    let limit = if a > b {
        a as int
    } else {
        b as int
    };
    decimal_reads_back(a, limit);
    decimal_reads_back(b, limit);
}

/// A number is written in tens: one more digit stands behind those of a tenth of it.
pub proof fn decimals_count_in_tens(n: nat, d: nat)
    requires
        d < 10,
    ensures
        decimal(d) == seq![seq!['0', '1', '2', '3', '4', '5', '6', '7', '8', '9'][d as int]],
        n > 0 ==> decimal(10 * n + d) == decimal(n) + decimal(d),
        n > 0 ==> signed_decimal(-(n as int)) == seq!['-'] + decimal(n),
        signed_decimal(n as int) == decimal(n),
{
    assert(digit(d as int) == seq!['0', '1', '2', '3', '4', '5', '6', '7', '8', '9'][d as int]);
    if n > 0 {
        assert((10 * n + d) / 10 == n);
        assert((10 * n + d) % 10 == d);
        assert(decimal(10 * n + d) =~= decimal(n) + decimal(d));
    }
    assert("-"@ =~= seq!['-']) by {
        reveal_strlit("-");
    }
}

proof fn lemma_digits_only(seen: int, s: Seq<char>, limit: int)
    requires
        0 <= seen <= limit,
    ensures
        digits_value(seen, s, limit) matches Ok(v) ==> seen <= v <= limit && forall|i: int|
            0 <= i < s.len() ==> text::is_digit(#[trigger] s[i]),
        digits_value(seen, s, limit) == Err::<int, NumberError>(NumberError::InvalidDigit)
            ==> exists|i: int| 0 <= i < s.len() && !text::is_digit(#[trigger] s[i]),
    decreases s.len(),
{
    if s.len() > 0 {
        if text::is_digit(s[0]) && seen * 10 + (s[0] as int - 48) <= limit {
            let rest = s.skip(1);
            lemma_digits_only(seen * 10 + (s[0] as int - 48), rest, limit);
            if digits_value(seen, s, limit) is Ok {
                assert forall|i: int| 0 <= i < s.len() implies text::is_digit(#[trigger] s[i]) by {
                    if i > 0 {
                        assert(rest[i - 1] == s[i]);
                    }
                }
            }
            if digits_value(seen, s, limit) == Err::<int, NumberError>(NumberError::InvalidDigit) {
                let i = choose|i: int| 0 <= i < rest.len() && !text::is_digit(#[trigger] rest[i]);
                assert(s[i + 1] == rest[i]);
            }
        } else if !text::is_digit(s[0]) {
            assert(!text::is_digit(s[0]));
        }
    }
}

/// Only texts that are made of digits, after a plus sign or not, are numbers, and no number is past
/// the limit; an empty text is refused as such. A plus sign before digits makes no difference.
pub proof fn only_digits_are_numbers(s: Seq<char>, n: nat, limit: int)
    requires
        0 <= limit,
    ensures
        s.len() == 0 <==> unsigned_value(s, limit) == Err::<int, NumberError>(NumberError::Empty),
        unsigned_value(s, limit) matches Ok(v) ==> 0 <= v <= limit && (s[0] == '+' && s.len() > 1
            || text::is_digit(s[0])) && forall|i: int|
            1 <= i < s.len() ==> text::is_digit(#[trigger] s[i]),
        n <= limit ==> unsigned_value(seq!['+'] + decimal(n), limit) == Ok::<int, NumberError>(
            n as int,
        ),
{
    let plain = s.len() == 0 || !(s[0] == '+' && s.len() > 1);
    lemma_digits_only(0, s, limit);
    lemma_digits_only(0, s.skip(1), limit);
    lemma_never_empty(0, s, limit);
    lemma_never_empty(0, s.skip(1), limit);
    if unsigned_value(s, limit) is Ok {
        if plain {
            assert(text::is_digit(s[0]));
        } else {
            assert forall|i: int| 1 <= i < s.len() implies text::is_digit(#[trigger] s[i]) by {
                assert(s.skip(1)[i - 1] == s[i]);
            }
        }
    }
    if n <= limit {
        lemma_decimal_value(n, limit);
        decimal_is_digits(n);
        assert((seq!['+'] + decimal(n)).skip(1) =~= decimal(n));
    }
}

proof fn lemma_never_empty(seen: int, s: Seq<char>, limit: int)
    ensures
        digits_value(seen, s, limit) != Err::<int, NumberError>(NumberError::Empty),
    decreases s.len(),
{
    if s.len() > 0 && text::is_digit(s[0]) && seen * 10 + (s[0] as int - 48) <= limit {
        lemma_never_empty(seen * 10 + (s[0] as int - 48), s.skip(1), limit);
    }
}

/// A number that does not fit is refused with its direction.
pub proof fn refusals_tell_the_direction()
    ensures
        NumberError::TooLarge.text() == "number too "@ + "large"@ + " to fit in target type"@,
        NumberError::TooSmall.text() == "number too "@ + "small"@ + " to fit in target type"@,
{
    reveal_strlit("number too ");
    reveal_strlit("large");
    reveal_strlit("small");
    reveal_strlit(" to fit in target type");
    reveal_strlit("number too large to fit in target type");
    reveal_strlit("number too small to fit in target type");
    assert("number too large to fit in target type"@ =~= "number too "@ + "large"@
        + " to fit in target type"@);
    assert("number too small to fit in target type"@ =~= "number too "@ + "small"@
        + " to fit in target type"@);
}

/// A signed number is read with its sign, and refused where it is below the smallest or above the
/// largest of 32 bits.
pub proof fn signed_numbers_keep_to_their_range(n: nat)
    ensures
        n <= 0x8000_0000 && n > 0 ==> signed_value(seq!['-'] + decimal(n)) == Ok::<
            int,
            NumberError,
        >(-(n as int)),
        n > 0x8000_0000 ==> signed_value(seq!['-'] + decimal(n)) == Err::<int, NumberError>(
            NumberError::TooSmall,
        ),
        n <= 0x7fff_ffff ==> signed_value(decimal(n)) == Ok::<int, NumberError>(n as int),
        n > 0x7fff_ffff ==> signed_value(decimal(n)) == Err::<int, NumberError>(
            NumberError::TooLarge,
        ),
{
    let s = seq!['-'] + decimal(n);
    decimal_is_digits(n);
    assert(s.skip(1) =~= decimal(n));
    assert(text::is_digit(decimal(n)[0]));
    if n <= 0x8000_0000 {
        lemma_decimal_value(n, 0x8000_0000);
    } else {
        lemma_decimal_too_large(n, 0x8000_0000);
    }
    decimal_reads_back(n, i32::MAX as int);
}

} // verus!
