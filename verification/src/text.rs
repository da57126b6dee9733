//! Text: comparing, joining, and decimal numbers.
use vstd::prelude::*;

verus! {

/// Whether two texts are equal.
pub(crate) fn same_text(a: &str, b: &str) -> (r: bool)
    ensures
        r == (a@ == b@),
{
    a.to_owned() == b.to_owned()
}

/// `first` followed by `second`.
pub(crate) fn joined(first: &str, second: &str) -> (r: String)
    ensures
        r@ == first@ + second@,
{
    let mut text = first.to_owned();
    text.append(second);
    text
}

/// The decimal digit `d`.
pub open spec fn digit_char(d: nat) -> char {
    (48 + d) as char
}

pub open spec fn is_digit(c: char) -> bool {
    '0' <= c <= '9'
}

pub open spec fn all_digits(s: Seq<char>) -> bool {
    forall|i: int| 0 <= i < s.len() ==> is_digit(#[trigger] s[i])
}

/// The decimal form of `n`, without leading zeros.
pub open spec fn decimal_form(n: nat) -> Seq<char>
    decreases n,
{
    if n < 10 {
        seq![digit_char(n)]
    } else {
        decimal_form(n / 10).push(digit_char(n % 10))
    }
}

/// The number that a sequence of decimal digits denotes.
pub open spec fn digits_value(s: Seq<char>) -> nat
    decreases s.len(),
{
    if s.len() == 0 {
        0
    } else {
        10 * digits_value(s.drop_last()) + (s.last() as int - 48) as nat
    }
}

/// `s` without its first character if that is `sign`.
pub open spec fn without_sign(s: Seq<char>, sign: char) -> Seq<char> {
    if s.len() > 0 && s[0] == sign {
        s.skip(1)
    } else {
        s
    }
}

/// The number of at most `max` that `s` denotes: digits, with an optional plus sign before them.
pub open spec fn unsigned_value(s: Seq<char>, max: nat) -> Option<nat> {
    let digits = without_sign(s, '+');
    if digits.len() > 0 && all_digits(digits) && digits_value(digits) <= max {
        Some(digits_value(digits))
    } else {
        None
    }
}

/// The number between `min` and `max` that `s` denotes: digits, with an optional sign before them.
pub open spec fn signed_value(s: Seq<char>, min: int, max: int) -> Option<int> {
    let negative = s.len() > 0 && s[0] == '-';
    let digits = if negative {
        s.skip(1)
    } else {
        without_sign(s, '+')
    };
    let value = if negative {
        -(digits_value(digits) as int)
    } else {
        digits_value(digits) as int
    };
    if digits.len() > 0 && all_digits(digits) && min <= value <= max {
        Some(value)
    } else {
        None
    }
}

/// The text of one decimal digit.
fn digit(d: u64) -> (r: &'static str)
    requires
        d < 10,
    ensures
        r@ == seq![digit_char(d as nat)],
{
    proof {
        reveal_strlit("0");
        reveal_strlit("1");
        reveal_strlit("2");
        reveal_strlit("3");
        reveal_strlit("4");
        reveal_strlit("5");
        reveal_strlit("6");
        reveal_strlit("7");
        reveal_strlit("8");
        reveal_strlit("9");
    }
    match d {
        0 => "0",
        1 => "1",
        2 => "2",
        3 => "3",
        4 => "4",
        5 => "5",
        6 => "6",
        7 => "7",
        8 => "8",
        _ => "9",
    }
}

/// The decimal form of a number.
pub fn decimal(n: u64) -> (r: String)
    ensures
        r@ == decimal_form(n as nat),
    decreases n,
{
    if n < 10 {
        digit(n).to_owned()
    } else {
        let mut text = decimal(n / 10);
        text.append(digit(n % 10));
        text
    }
}

/// The address `bind:port`.
pub open spec fn address(bind: Seq<char>, port: u16) -> Seq<char> {
    bind + ":"@ + decimal_form(port as nat)
}

/// The address that the proxy listens on.
pub fn listen_address(bind: &str, port: u16) -> (r: String)
    ensures
        r@ == address(bind@, port),
{
    let mut text = joined(bind, ":");
    text.append(decimal(port as u64).as_str());
    text
}

/// Every value up to this one is told apart by `magnitude`.
const MAGNITUDE_LIMIT: u64 = 0xffff_ffff;

/// The value of the digits of `s` from `from` on; every value over the limit comes out as some
/// number over the limit.
fn magnitude(s: &str, from: usize) -> (r: Option<u64>)
    requires
        from <= s@.len(),
    ensures
        r is Some <==> from < s@.len() && all_digits(s@.skip(from as int)),
        r matches Some(m) ==> {
            let value = digits_value(s@.skip(from as int));
            if value <= MAGNITUDE_LIMIT {
                m == value
            } else {
                m > MAGNITUDE_LIMIT
            }
        },
{
    let ghost digits = s@.skip(from as int);
    let length: usize = s.unicode_len();
    if from == length {
        return None;
    }
    let mut position: usize = 0;
    let mut value: u64 = 0;
    for c in it: s.chars()
        invariant
            it.seq() == s@,
            from < s@.len() == length,
            digits == s@.skip(from as int),
            position == it.index(),
            position > from ==> all_digits(digits.take(position - from)),
            position <= from ==> value == 0,
            position > from ==> ({
                let so_far = digits_value(digits.take(position - from));
                if so_far <= MAGNITUDE_LIMIT {
                    value == so_far
                } else {
                    value > MAGNITUDE_LIMIT
                }
            }),
            value <= 10 * MAGNITUDE_LIMIT + 9,
    {
        if position >= from {
            if c < '0' || c > '9' {
                assert(digits[position - from] == c);
                return None;
            }
            proof {
                let next = digits.take(position - from + 1);
                assert(next.drop_last() =~= digits.take(position - from));
                assert(next.last() == c);
                assert(position == from ==> digits_value(next.drop_last()) == 0);
            }
            if value <= MAGNITUDE_LIMIT {
                value = 10 * value + (c as u64 - 48);
            }
        }
        position = position + 1;
    }
    assert(digits.take(digits.len() as int) =~= digits);
    Some(value)
}

/// Reads a number as `str::parse::<u16>` does; `None` where that fails.
pub fn parse_u16(s: &str) -> (r: Option<u16>)
    ensures
        r is Some <==> unsigned_value(s@, u16::MAX as nat) is Some,
        r matches Some(n) ==> unsigned_value(s@, u16::MAX as nat) == Some(n as nat),
{
    let signed = first_is(s, '+');
    assert(s@.skip(0) =~= s@);
    match magnitude(s, if signed { 1 } else { 0 }) {
        Some(value) if value <= 0xffff => Some(value as u16),
        _ => None,
    }
}

/// Reads a number as `str::parse::<i32>` does; `None` where that fails.
pub fn parse_i32(s: &str) -> (r: Option<i32>)
    ensures
        r is Some <==> signed_value(s@, i32::MIN as int, i32::MAX as int) is Some,
        r matches Some(n) ==> signed_value(s@, i32::MIN as int, i32::MAX as int) == Some(n as int),
{
    if first_is(s, '-') {
        match magnitude(s, 1) {
            Some(value) if value <= 0x8000_0000 => Some((-(value as i64)) as i32),
            _ => None,
        }
    } else {
        let signed = first_is(s, '+');
        assert(s@.skip(0) =~= s@);
        match magnitude(s, if signed { 1 } else { 0 }) {
            Some(value) if value <= 0x7fff_ffff => Some(value as i32),
            _ => None,
        }
    }
}

/// Whether `s` begins with `c`.
fn first_is(s: &str, c: char) -> (r: bool)
    ensures
        r == (s@.len() > 0 && s@[0] == c),
{
    !s.is_empty() && s.get_char(0) == c
}

/// Reading back the decimal form of a number gives the number.
pub proof fn law_decimal_reads_back(n: nat)
    ensures
        decimal_form(n).len() > 0,
        all_digits(decimal_form(n)),
        digits_value(decimal_form(n)) == n,
        unsigned_value(decimal_form(n), n) == Some(n),
    decreases n,
{
    if n >= 10 {
        law_decimal_reads_back(n / 10);
        let rest = decimal_form(n / 10);
        let last = digit_char(n % 10);
        assert(rest.push(last).drop_last() =~= rest);
        assert(rest.push(last).last() == last);
        assert forall|i: int| 0 <= i < rest.push(last).len() implies is_digit(
            #[trigger] rest.push(last)[i],
        ) by {
            if i < rest.len() {
                assert(rest.push(last)[i] == rest[i]);
            }
        }
    } else {
        let one = decimal_form(n);
        assert(one.drop_last() =~= Seq::<char>::empty());
        assert(one.last() == digit_char(n));
        assert(digits_value(one.drop_last()) == 0);
    }
    assert(is_digit(decimal_form(n)[0]));
}

/// An address determines the host and the port that it was made of.
pub proof fn law_address_determines_parts(
    bind: Seq<char>,
    port: u16,
    other_bind: Seq<char>,
    other_port: u16,
)
    requires
        address(bind, port) == address(other_bind, other_port),
    ensures
        bind == other_bind,
        port == other_port,
{
    let whole = address(bind, port);
    let digits = decimal_form(port as nat);
    let other_digits = decimal_form(other_port as nat);
    law_decimal_reads_back(port as nat);
    law_decimal_reads_back(other_port as nat);
    reveal_strlit(":");
    assert(whole == other_bind + ":"@ + other_digits);
    assert(whole.len() == bind.len() + 1 + digits.len());
    assert(whole.len() == other_bind.len() + 1 + other_digits.len());
    assert(whole[bind.len() as int] == ':');
    assert(whole[other_bind.len() as int] == ':');
    if bind.len() < other_bind.len() {
        assert(whole[other_bind.len() as int] == digits[other_bind.len() - bind.len() - 1]);
        assert(is_digit(digits[other_bind.len() - bind.len() - 1]));
    }
    if other_bind.len() < bind.len() {
        assert(whole[bind.len() as int] == other_digits[bind.len() - other_bind.len() - 1]);
        assert(is_digit(other_digits[bind.len() - other_bind.len() - 1]));
    }
    assert(bind =~= whole.take(bind.len() as int));
    assert(other_bind =~= whole.take(bind.len() as int));
    assert(digits =~= whole.skip(bind.len() as int + 1));
    assert(other_digits =~= whole.skip(bind.len() as int + 1));
}

/// A text consists of digits where every character lies between `0` and `9`. No digits denote
/// nothing; each further digit counts ten times what stands before it.
pub proof fn law_digits_count_in_tens(s: Seq<char>, d: nat)
    requires
        d < 10,
    ensures
        all_digits(s) <==> forall|i: int| 0 <= i < s.len() ==> 48 <= #[trigger] s[i] as int <= 57,
        digits_value(Seq::empty()) == 0,
        digits_value(s.push((48 + d) as char)) == 10 * digits_value(s) + d,
{
    let longer = s.push((48 + d) as char);
    assert(longer.drop_last() =~= s);
    assert(longer.last() as int == 48 + d);
}

/// The decimal form of a number has no leading zero, except that of zero itself.
pub proof fn law_decimal_has_no_leading_zero(n: nat)
    ensures
        decimal_form(n).len() > 0,
        n > 0 ==> decimal_form(n)[0] != '0',
        n == 0 ==> decimal_form(n).len() == 1 && decimal_form(n)[0] == '0',
    decreases n,
{
    if n >= 10 {
        law_decimal_has_no_leading_zero(n / 10);
    }
}

/// Digits, with or without a plus sign before them, are read as the number that they denote if it
/// is not too great, and refused if it is.
pub proof fn law_unsigned_numbers_are_read(digits: Seq<char>, max: nat)
    requires
        digits.len() > 0,
        all_digits(digits),
    ensures
        unsigned_value(digits, max) is Some <==> digits_value(digits) <= max,
        unsigned_value(digits, max) is Some ==> unsigned_value(digits, max)->0 == digits_value(
            digits,
        ),
        unsigned_value(seq!['+'] + digits, max) == unsigned_value(digits, max),
{
    assert(is_digit(digits[0]));
    assert((seq!['+'] + digits).skip(1) =~= digits);
}

/// Nothing else is read: a text that is read has one digit at least, and nothing but digits after
/// its first character, which is a digit or a plus sign.
pub proof fn law_other_texts_are_no_unsigned_numbers(s: Seq<char>, max: nat)
    ensures
        unsigned_value(s, max) is Some ==> {
            &&& s.len() > 0
            &&& s[0] == '+' || 48 <= s[0] as int <= 57
            &&& s[0] == '+' ==> s.len() > 1
            &&& forall|i: int| 1 <= i < s.len() ==> 48 <= #[trigger] s[i] as int <= 57
        },
{
    if unsigned_value(s, max) is Some {
        let digits = without_sign(s, '+');
        if s[0] == '+' {
            assert forall|i: int| 1 <= i < s.len() implies 48 <= #[trigger] s[i] as int <= 57 by {
                assert(is_digit(digits[i - 1]));
            }
        } else {
            assert forall|i: int| 0 <= i < s.len() implies 48 <= #[trigger] s[i] as int <= 57 by {
                assert(is_digit(digits[i]));
            }
        }
    }
}

/// Digits, with or without a sign before them, are read as the number that they denote, or as its
/// opposite after a minus sign, if it lies between the bounds, and refused if it does not.
pub proof fn law_signed_numbers_are_read(digits: Seq<char>, min: int, max: int)
    requires
        digits.len() > 0,
        all_digits(digits),
    ensures
        signed_value(digits, min, max) is Some <==> min <= digits_value(digits) <= max,
        signed_value(digits, min, max) is Some ==> signed_value(digits, min, max)->0
            == digits_value(digits),
        signed_value(seq!['+'] + digits, min, max) == signed_value(digits, min, max),
        signed_value(seq!['-'] + digits, min, max) is Some <==> min <= -digits_value(digits)
            <= max,
        signed_value(seq!['-'] + digits, min, max) is Some ==> signed_value(
            seq!['-'] + digits,
            min,
            max,
        )->0 == -digits_value(digits),
{
    assert(is_digit(digits[0]));
    assert((seq!['+'] + digits).skip(1) =~= digits);
    assert((seq!['-'] + digits).skip(1) =~= digits);
}

/// Nothing else is read: a text that is read has one digit at least, and nothing but digits after
/// its first character, which is a digit or a sign.
pub proof fn law_other_texts_are_no_signed_numbers(s: Seq<char>, min: int, max: int)
    ensures
        signed_value(s, min, max) is Some ==> {
            &&& s.len() > 0
            &&& s[0] == '+' || s[0] == '-' || 48 <= s[0] as int <= 57
            &&& (s[0] == '+' || s[0] == '-') ==> s.len() > 1
            &&& forall|i: int| 1 <= i < s.len() ==> 48 <= #[trigger] s[i] as int <= 57
        },
{
    if signed_value(s, min, max) is Some {
        let digits = if s.len() > 0 && s[0] == '-' {
            s.skip(1)
        } else {
            without_sign(s, '+')
        };
        assert forall|i: int| 1 <= i < s.len() implies 48 <= #[trigger] s[i] as int <= 57 by {
            if s[0] == '+' || s[0] == '-' {
                assert(is_digit(digits[i - 1]));
            } else {
                assert(is_digit(digits[i]));
            }
        }
        if s[0] != '+' && s[0] != '-' {
            assert(is_digit(digits[0]));
        }
    }
}

/// An address is the host, a colon, and the digits of the port.
pub proof fn law_address_parts(bind: Seq<char>, port: u16)
    ensures
        address(bind, port).len() > bind.len() + 1,
        address(bind, port).take(bind.len() as int) == bind,
        address(bind, port)[bind.len() as int] == ':',
        all_digits(address(bind, port).skip(bind.len() as int + 1)),
        digits_value(address(bind, port).skip(bind.len() as int + 1)) == port,
        port > 0 ==> address(bind, port)[bind.len() as int + 1] != '0',
{
    reveal_strlit(":");
    law_decimal_reads_back(port as nat);
    law_decimal_has_no_leading_zero(port as nat);
    let whole = address(bind, port);
    assert(whole.take(bind.len() as int) =~= bind);
    assert(whole.skip(bind.len() as int + 1) =~= decimal_form(port as nat));
    assert(whole[bind.len() as int + 1] == decimal_form(port as nat)[0]);
}

} // verus!
