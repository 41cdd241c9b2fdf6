//! Whole numbers written in decimal, as a process id is in a file or a path:
//! writing one, reading one back, and why the two agree.
use vstd::prelude::*;
use vstd::string::*;

verus! {

/// Why a text is not a number that fits in 32 bits.
#[derive(Debug, Clone, Copy, PartialEq, Eq)]
pub enum IntErrorKind {
    /// The text is empty.
    Empty,
    /// The text holds something other than digits behind an optional sign,
    /// or is a sign alone.
    InvalidDigit,
    /// The number is too large.
    PosOverflow,
    /// The number is too small.
    NegOverflow,
}

/// Whether `c` is one of `0` to `9`.
pub open spec fn is_digit(c: char) -> bool {
    '0' <= c <= '9'
}

/// The number that the digit `c` stands for.
pub open spec fn digit_value(c: char) -> int {
    c as int - '0' as int
}

/// The character for a number below ten.
pub open spec fn digit(d: int) -> char {
    (d + '0' as int) as char
}

/// A number without sign, in decimal, with no leading zero.
pub open spec fn digits(n: nat) -> Seq<char>
    decreases n,
{
    if n < 10 {
        seq![digit(n as int)]
    } else {
        digits(n / 10).push(digit((n % 10) as int))
    }
}

/// A number in decimal: a minus sign where it is negative, then its digits.
pub open spec fn decimal(n: int) -> Seq<char> {
    if n < 0 {
        seq!['-'] + digits((-n) as nat)
    } else {
        digits(n as nat)
    }
}

/// The number read so far, with one more digit behind it.
pub open spec fn with_digit(acc: int, c: char, negative: bool) -> int {
    if negative {
        acc * 10 - digit_value(c)
    } else {
        acc * 10 + digit_value(c)
    }
}

/// What a number outside the 32 bits is reported as.
pub open spec fn overflow(negative: bool) -> IntErrorKind {
    if negative {
        IntErrorKind::NegOverflow
    } else {
        IntErrorKind::PosOverflow
    }
}

/// Whether `n` fits in 32 bits with sign.
pub open spec fn fits(n: int) -> bool {
    i32::MIN <= n <= i32::MAX
}

/// Reads digits from left to right onto `acc`. The first character that is
/// no digit, or the first digit with which the number no longer fits, ends
/// the reading with an error.
pub open spec fn accumulate(s: Seq<char>, acc: int, negative: bool) -> Result<int, IntErrorKind>
    decreases s.len(),
{
    if s.len() == 0 {
        Ok(acc)
    } else if !is_digit(s[0]) {
        Err(IntErrorKind::InvalidDigit)
    } else if !fits(with_digit(acc, s[0], negative)) {
        Err(overflow(negative))
    } else {
        accumulate(s.drop_first(), with_digit(acc, s[0], negative), negative)
    }
}

/// The number that a text stands for: an optional `+` or `-`, then at least
/// one digit, nothing else, and a value that fits in 32 bits with sign.
pub open spec fn parse_i32(s: Seq<char>) -> Result<int, IntErrorKind> {
    if s.len() == 0 {
        Err(IntErrorKind::Empty)
    } else if s.len() == 1 && (s[0] == '+' || s[0] == '-') {
        Err(IntErrorKind::InvalidDigit)
    } else if s[0] == '+' {
        accumulate(s.drop_first(), 0, false)
    } else if s[0] == '-' {
        accumulate(s.drop_first(), 0, true)
    } else {
        accumulate(s, 0, false)
    }
}

/// What `accumulate` gives for a text with one more character behind it.
pub open spec fn accumulate_then(
    before: Result<int, IntErrorKind>,
    c: char,
    negative: bool,
) -> Result<int, IntErrorKind> {
    match before {
        Err(e) => Err(e),
        Ok(acc) => if !is_digit(c) {
            Err(IntErrorKind::InvalidDigit)
        } else if !fits(with_digit(acc, c, negative)) {
            Err(overflow(negative))
        } else {
            Ok(with_digit(acc, c, negative))
        },
    }
}

/// Reading a text and then one more character is reading the longer text.
pub proof fn lemma_accumulate_push(s: Seq<char>, c: char, acc: int, negative: bool)
    ensures
        accumulate(s.push(c), acc, negative) == accumulate_then(
            accumulate(s, acc, negative),
            c,
            negative,
        ),
    decreases s.len(),
{
    let longer = s.push(c);
    if s.len() == 0 {
        assert(longer.drop_first() =~= Seq::<char>::empty());
        assert(accumulate(longer.drop_first(), with_digit(acc, c, negative), negative) == Ok::<
            int,
            IntErrorKind,
        >(with_digit(acc, c, negative)));
    } else {
        assert(longer[0] == s[0]);
        assert(longer.drop_first() =~= s.drop_first().push(c));
        if is_digit(s[0]) && fits(with_digit(acc, s[0], negative)) {
            lemma_accumulate_push(s.drop_first(), c, with_digit(acc, s[0], negative), negative);
        }
    }
}

/// The digits of a number are digits, and reading them gives the number
/// back, under either sign, as long as the result fits.
pub proof fn lemma_digits_read_back(n: nat, negative: bool)
    requires
        fits(if negative { -(n as int) } else { n as int }),
    ensures
        digits(n).len() >= 1,
        forall|k: int| 0 <= k < digits(n).len() ==> is_digit(#[trigger] digits(n)[k]),
        accumulate(digits(n), 0, negative) == Ok::<int, IntErrorKind>(
            if negative { -(n as int) } else { n as int },
        ),
    decreases n,
{
    if n < 10 {
        let s = digits(n);
        assert(s.drop_first() =~= Seq::<char>::empty());
        assert(digit_value(s[0]) == n);
        assert(accumulate(s.drop_first(), with_digit(0, s[0], negative), negative) == Ok::<
            int,
            IntErrorKind,
        >(with_digit(0, s[0], negative)));
    } else {
        let front = (n / 10) as nat;
        let last = digit((n % 10) as int);
        lemma_digits_read_back(front, negative);
        lemma_accumulate_push(digits(front), last, 0, negative);
        assert(digit_value(last) == n % 10);
        assert(is_digit(last));
    }
}

/// A number written in decimal and read back is the same number.
pub proof fn lemma_decimal_round_trip(n: int)
    requires
        fits(n),
    ensures
        parse_i32(decimal(n)) == Ok::<int, IntErrorKind>(n),
{
    let s = decimal(n);
    if n < 0 {
        lemma_digits_read_back((-n) as nat, true);
        assert(s.drop_first() =~= digits((-n) as nat));
    } else {
        lemma_digits_read_back(n as nat, false);
        assert(is_digit(s[0]));
    }
}

/// A number in decimal is a minus sign or a digit, then digits.
pub proof fn lemma_decimal_shape(n: int)
    requires
        fits(n),
    ensures
        decimal(n).len() >= 1,
        forall|k: int|
            0 <= k < decimal(n).len() ==> is_digit(#[trigger] decimal(n)[k]) || (k == 0
                && decimal(n)[k] == '-'),
{
    if n < 0 {
        lemma_digits_read_back((-n) as nat, true);
    } else {
        lemma_digits_read_back(n as nat, false);
    }
}

fn digit_text(d: u32) -> (r: &'static str)
    requires
        d < 10,
    ensures
        r@ == seq![digit(d as int)],
{
    proof {
        reveal_strlit("0");
        reveal_strlit("1");
        reveal_strlit("2");
        reveal_strlit("3");
        reveal_strlit("4");
        reveal_strlit("5");
        reveal_strlit("6");
        reveal_strlit("7");
        reveal_strlit("8");
        reveal_strlit("9");
    }
    let r = match d {
        0 => "0",
        1 => "1",
        2 => "2",
        3 => "3",
        4 => "4",
        5 => "5",
        6 => "6",
        7 => "7",
        8 => "8",
        _ => "9",
    };
    assert(r@ =~= seq![digit(d as int)]);
    r
}

fn push_digits(out: &mut String, n: u32)
    ensures
        final(out)@ == old(out)@ + digits(n as nat),
    decreases n,
{
    if n >= 10 {
        push_digits(out, n / 10);
    }
    out.append(digit_text(n % 10));
    assert(final(out)@ =~= old(out)@ + digits(n as nat));
}

/// Appends `n` in decimal to `out`.
pub fn push_decimal(out: &mut String, n: i32)
    ensures
        final(out)@ == old(out)@ + decimal(n as int),
{
    if n < 0 {
        proof {
            reveal_strlit("-");
        }
        out.append("-");
        push_digits(out, (-(n as i64)) as u32);
        assert(final(out)@ =~= old(out)@ + decimal(n as int));
    } else {
        push_digits(out, n as u32);
    }
}

/// Reads `s` as a number.
pub fn parse_decimal(s: &[char]) -> (r: Result<i32, IntErrorKind>)
    ensures
        match r {
            Ok(n) => parse_i32(s@) == Ok::<int, IntErrorKind>(n as int),
            Err(e) => parse_i32(s@) == Err::<int, IntErrorKind>(e),
        },
{
    assert(s@.subrange(0, s@.len() as int) =~= s@);
    parse_range(s, 0, s.len())
}

/// Reads the part of `s` from `from` up to `to` as a number.
pub(crate) fn parse_range(s: &[char], from: usize, to: usize) -> (r: Result<i32, IntErrorKind>)
    requires
        from <= to <= s@.len(),
    ensures
        match r {
            Ok(n) => parse_i32(s@.subrange(from as int, to as int)) == Ok::<int, IntErrorKind>(
                n as int,
            ),
            Err(e) => parse_i32(s@.subrange(from as int, to as int)) == Err::<int, IntErrorKind>(e),
        },
{
    let ghost whole = s@.subrange(from as int, to as int);
    if from == to {
        return Err(IntErrorKind::Empty);
    }
    let first = s[from];
    assert(whole[0] == first);
    if to - from == 1 && (first == '+' || first == '-') {
        return Err(IntErrorKind::InvalidDigit);
    }
    let negative = first == '-';
    let mut i: usize = if first == '+' || first == '-' {
        from + 1
    } else {
        from
    };
    assert(whole.drop_first() =~= s@.subrange(from + 1, to as int));
    let mut acc: i64 = 0;
    while i < to
        invariant
            from <= i <= to <= s@.len(),
            fits(acc as int),
            whole == s@.subrange(from as int, to as int),
            parse_i32(whole) == accumulate(s@.subrange(i as int, to as int), acc as int, negative),
        decreases to - i,
    {
        let c = s[i];
        let ghost rest = s@.subrange(i as int, to as int);
        assert(rest[0] == c);
        assert(rest.drop_first() =~= s@.subrange(i + 1, to as int));
        if !(c >= '0' && c <= '9') {
            return Err(IntErrorKind::InvalidDigit);
        }
        let d: i64 = (c as u32 - '0' as u32) as i64;
        let next: i64 = if negative {
            acc * 10 - d
        } else {
            acc * 10 + d
        };
        if next < -2147483648 || next > 2147483647 {
            return Err(
                if negative {
                    IntErrorKind::NegOverflow
                } else {
                    IntErrorKind::PosOverflow
                },
            );
        }
        acc = next;
        i += 1;
    }
    Ok(acc as i32)
}

} // verus!
