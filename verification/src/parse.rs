//! Text-to-value parsing of route parameters, with the rules and error
//! messages of the standard library's `FromStr` for `bool` and the unsigned
//! integers.
use vstd::prelude::*;
use vstd::string::StringExecFns;

verus! {

/// Why a text is not an unsigned integer of the wanted width.
#[derive(Debug, Clone, Copy, PartialEq, Eq, Structural)]
pub enum IntErrorKind {
    /// The text is empty.
    Empty,
    /// The text holds a character that is not a decimal digit.
    InvalidDigit,
    /// The number exceeds the largest value of the wanted width.
    PosOverflow,
}

impl IntErrorKind {
    /// The message that the standard library shows for the error.
    pub open spec fn text(self) -> Seq<char> {
        match self {
            IntErrorKind::Empty => "cannot parse integer from empty string"@,
            IntErrorKind::InvalidDigit => "invalid digit found in string"@,
            IntErrorKind::PosOverflow => "number too large to fit in target type"@,
        }
    }

    /// Returns the message that the standard library shows for the error.
    pub fn message(self) -> (message: &'static str)
        ensures
            message@ == self.text(),
    {
        match self {
            IntErrorKind::Empty => "cannot parse integer from empty string",
            IntErrorKind::InvalidDigit => "invalid digit found in string",
            IntErrorKind::PosOverflow => "number too large to fit in target type",
        }
    }
}

/// The message that the standard library shows when a text is not a `bool`.
pub open spec fn bool_error_text() -> Seq<char> {
    "provided string was not `true` or `false`"@
}

/// Returns the message that the standard library shows when a text is not a
/// `bool`.
pub fn bool_error_message() -> (message: &'static str)
    ensures
        message@ == bool_error_text(),
{
    "provided string was not `true` or `false`"
}

/// Whether `c` is a decimal digit.
pub open spec fn is_digit(c: char) -> bool {
    '0' <= c && c <= '9'
}

/// The value of a decimal digit.
pub open spec fn digit_value(c: char) -> int {
    c as int - '0' as int
}

/// Reads the digits `d` after the value `acc` read so far, left to right: a
/// non-digit fails at once; a digit that takes the value past `max` fails
/// with an overflow.
pub open spec fn read_digits(d: Seq<char>, acc: int, max: int) -> Result<int, IntErrorKind>
    decreases d.len(),
{
    if d.len() == 0 {
        Ok(acc)
    } else if !is_digit(d[0]) {
        Err(IntErrorKind::InvalidDigit)
    } else if acc * 10 + digit_value(d[0]) > max {
        Err(IntErrorKind::PosOverflow)
    } else {
        read_digits(d.drop_first(), acc * 10 + digit_value(d[0]), max)
    }
}

/// The unsigned integer that `s` writes in decimal, at most `max`, as the
/// standard library reads it: one leading `+` is allowed, a lone sign is an
/// invalid digit, and so is a `-`.
pub open spec fn parse_unsigned(s: Seq<char>, max: int) -> Result<int, IntErrorKind> {
    if s.len() == 0 {
        Err(IntErrorKind::Empty)
    } else if (s[0] == '+' || s[0] == '-') && s.len() == 1 {
        Err(IntErrorKind::InvalidDigit)
    } else if s[0] == '+' {
        read_digits(s.drop_first(), 0, max)
    } else {
        read_digits(s, 0, max)
    }
}

/// The `bool` that `s` names, as the standard library reads it.
pub open spec fn parse_bool_text(s: Seq<char>) -> Option<bool> {
    if s == "true"@ {
        Some(true)
    } else if s == "false"@ {
        Some(false)
    } else {
        None
    }
}

proof fn lemma_read_digits_bound(d: Seq<char>, acc: int, max: int)
    requires
        0 <= acc <= max,
    ensures
        read_digits(d, acc, max) matches Ok(v) ==> 0 <= v <= max,
    decreases d.len(),
{
    if d.len() > 0 && is_digit(d[0]) && acc * 10 + digit_value(d[0]) <= max {
        lemma_read_digits_bound(d.drop_first(), acc * 10 + digit_value(d[0]), max);
    }
}

/// Reads the decimal digits of `s` from `start` on, as [`read_digits`] does.
fn read_digits_exec(s: &[char], start: usize, max: u64) -> (result: Result<u64, IntErrorKind>)
    requires
        start <= s@.len(),
    ensures
        match read_digits(s@.subrange(start as int, s@.len() as int), 0, max as int) {
            Ok(v) => result == Ok::<u64, IntErrorKind>(v as u64),
            Err(e) => result == Err::<u64, IntErrorKind>(e),
        },
{
    let mut acc: u64 = 0;
    let mut i: usize = start;
    proof {
        lemma_read_digits_bound(s@.subrange(start as int, s@.len() as int), 0, max as int);
    }
    while i < s.len()
        invariant
            start <= i <= s@.len(),
            acc <= max,
            read_digits(s@.subrange(start as int, s@.len() as int), 0, max as int) == read_digits(
                s@.subrange(i as int, s@.len() as int),
                acc as int,
                max as int,
            ),
        decreases s.len() - i,
    {
        let c = s[i];
        let ghost rest = s@.subrange(i as int, s@.len() as int);
        proof {
            assert(rest[0] == c);
            assert(rest.drop_first() == s@.subrange(i + 1, s@.len() as int));
        }
        if !('0' <= c && c <= '9') {
            return Err(IntErrorKind::InvalidDigit);
        }
        let d: u64 = (c as u64) - ('0' as u64);
        let scaled = acc.checked_mul(10);
        let next = match scaled {
            Some(m) => m.checked_add(d),
            None => None,
        };
        match next {
            Some(n) => {
                if n > max {
                    return Err(IntErrorKind::PosOverflow);
                }
                acc = n;
            },
            None => {
                return Err(IntErrorKind::PosOverflow);
            },
        }
        i = i + 1;
    }
    proof {
        assert(s@.subrange(i as int, s@.len() as int) =~= Seq::<char>::empty());
    }
    Ok(acc)
}

/// Reads `s` as an unsigned integer no larger than `max`, with the rules of
/// the standard library's `FromStr` for unsigned integers.
pub fn parse_unsigned_chars(s: &[char], max: u64) -> (result: Result<u64, IntErrorKind>)
    ensures
        match parse_unsigned(s@, max as int) {
            Ok(v) => result == Ok::<u64, IntErrorKind>(v as u64),
            Err(e) => result == Err::<u64, IntErrorKind>(e),
        },
        result matches Ok(v) ==> v <= max,
        parse_unsigned(s@, max as int) matches Ok(v) ==> 0 <= v <= max,
{
    proof {
        assert(s@.subrange(0, s@.len() as int) == s@);
        if s@.len() > 0 {
            assert(s@.subrange(1, s@.len() as int) == s@.drop_first());
            lemma_read_digits_bound(s@.drop_first(), 0, max as int);
        }
        lemma_read_digits_bound(s@, 0, max as int);
    }
    if s.len() == 0 {
        return Err(IntErrorKind::Empty);
    }
    if (s[0] == '+' || s[0] == '-') && s.len() == 1 {
        return Err(IntErrorKind::InvalidDigit);
    }
    if s[0] == '+' {
        read_digits_exec(s, 1, max)
    } else {
        read_digits_exec(s, 0, max)
    }
}

/// Reads `s` as a `bool`: `true` or `false`, nothing else.
pub fn parse_bool_chars(s: &[char]) -> (result: Option<bool>)
    ensures
        result == parse_bool_text(s@),
{
    let t = ['t', 'r', 'u', 'e'];
    let f = ['f', 'a', 'l', 's', 'e'];
    proof {
        reveal_strlit("true");
        reveal_strlit("false");
        assert(t@ =~= "true"@);
        assert(f@ =~= "false"@);
    }
    if crate::text::range_eq(s, 0, s.len(), t.as_slice()) {
        proof {
            assert(s@.subrange(0, s@.len() as int) == s@);
        }
        Some(true)
    } else if crate::text::range_eq(s, 0, s.len(), f.as_slice()) {
        proof {
            assert(s@.subrange(0, s@.len() as int) == s@);
        }
        Some(false)
    } else {
        proof {
            assert(s@.subrange(0, s@.len() as int) == s@);
        }
        None
    }
}

} // verus!

verus! {

/// The decimal digit character of a value below ten.
pub open spec fn digit_char(d: int) -> char {
    (d + 48) as char
}

/// The decimal text of a natural number, without leading zeros.
pub open spec fn decimal(n: nat) -> Seq<char>
    decreases n,
{
    if n < 10 {
        seq![digit_char(n as int)]
    } else {
        decimal(n / 10).push(digit_char((n % 10) as int))
    }
}

/// The characters of decimal digits stored least significant first, most
/// significant first.
pub open spec fn reversed_digits(d: Seq<u8>) -> Seq<char> {
    Seq::new(d.len(), |i: int| digit_char(d[d.len() - 1 - i] as int))
}

fn digit_text(d: u8) -> (text: &'static str)
    requires
        d < 10,
    ensures
        text@ == seq![digit_char(d as int)],
{
    proof {
        reveal_strlit("0");
        reveal_strlit("1");
        reveal_strlit("2");
        reveal_strlit("3");
        reveal_strlit("4");
        reveal_strlit("5");
        reveal_strlit("6");
        reveal_strlit("7");
        reveal_strlit("8");
        reveal_strlit("9");
    }
    match d {
        0 => "0",
        1 => "1",
        2 => "2",
        3 => "3",
        4 => "4",
        5 => "5",
        6 => "6",
        7 => "7",
        8 => "8",
        _ => "9",
    }
}

/// Writes an unsigned integer in decimal, as `to_string` does.
pub fn unsigned_text(n: u64) -> (text: String)
    ensures
        text@ == decimal(n as nat),
{
    let mut digits: Vec<u8> = Vec::new();
    let mut v = n;
    while v >= 10
        invariant
            decimal(n as nat) == decimal(v as nat) + reversed_digits(digits@),
            forall|i: int| 0 <= i < digits@.len() ==> digits@[i] < 10,
        decreases v,
    {
        let d = (v % 10) as u8;
        let ghost before = digits@;
        digits.push(d);
        proof {
            assert(reversed_digits(digits@) =~= seq![digit_char(d as int)] + reversed_digits(before));
            assert(decimal(v as nat) == decimal((v / 10) as nat).push(digit_char((v % 10) as int)));
        }
        v = v / 10;
    }
    let mut text = String::from_str(digit_text(v as u8));
    let mut k: usize = 0;
    let len = digits.len();
    while k < len
        invariant
            k <= len,
            len == digits@.len(),
            v < 10,
            decimal(n as nat) == seq![digit_char(v as int)] + reversed_digits(digits@),
            forall|i: int| 0 <= i < digits@.len() ==> digits@[i] < 10,
            text@ == seq![digit_char(v as int)] + reversed_digits(digits@).subrange(0, k as int),
        decreases len - k,
    {
        let d = digits[len - 1 - k];
        text.append(digit_text(d));
        proof {
            assert(reversed_digits(digits@).subrange(0, k + 1) =~= reversed_digits(digits@).subrange(0, k as int).push(digit_char(d as int)));
        }
        k = k + 1;
    }
    proof {
        assert(reversed_digits(digits@).subrange(0, len as int) =~= reversed_digits(digits@));
    }
    text
}

proof fn lemma_read_digits_push(s: Seq<char>, c: char, acc: int, max: int)
    ensures
        read_digits(s.push(c), acc, max) == match read_digits(s, acc, max) {
            Ok(v) => read_digits(seq![c], v, max),
            Err(e) => Err(e),
        },
    decreases s.len(),
{
    if s.len() == 0 {
        assert(s.push(c) =~= seq![c]);
    } else {
        assert(s.push(c).drop_first() =~= s.drop_first().push(c));
        assert(s.push(c)[0] == s[0]);
        if is_digit(s[0]) && acc * 10 + digit_value(s[0]) <= max {
            lemma_read_digits_push(s.drop_first(), c, acc * 10 + digit_value(s[0]), max);
        }
    }
}

proof fn lemma_decimal_digits(n: nat, max: int)
    requires
        n <= max,
    ensures
        read_digits(decimal(n), 0, max) == Ok::<int, IntErrorKind>(n as int),
        decimal(n).len() >= 1,
        is_digit(decimal(n)[0]),
    decreases n,
{
    if n < 10 {
        let c = digit_char(n as int);
        assert(decimal(n).drop_first() =~= Seq::<char>::empty());
        assert(digit_value(c) == n);
        assert(read_digits(decimal(n), 0, max) == read_digits(decimal(n).drop_first(), n as int, max));
    } else {
        let q = n / 10;
        let c = digit_char((n % 10) as int);
        lemma_decimal_digits(q, max);
        lemma_read_digits_push(decimal(q), c, 0, max);
        assert(seq![c].drop_first() =~= Seq::<char>::empty());
        assert(digit_value(c) == n % 10);
        assert(q * 10 + n % 10 == n);
        assert(is_digit(seq![c][0]));
        assert(read_digits(seq![c].drop_first(), (q * 10 + n % 10) as int, max) == Ok::<int, IntErrorKind>(n as int));
        assert(read_digits(seq![c], q as int, max as int) == Ok::<int, IntErrorKind>(n as int));
        assert(decimal(n) == decimal(q).push(c));
        assert(decimal(n)[0] == decimal(q)[0]);
    }
}

/// The decimal text of a number no larger than `max` reads back as the
/// number: what a controller writes into a path, a device parses back.
pub proof fn lemma_decimal_reads_back(n: nat, max: int)
    requires
        n <= max,
    ensures
        parse_unsigned(decimal(n), max) == Ok::<int, IntErrorKind>(n as int),
{
    lemma_decimal_digits(n, max);
}

} // verus!
