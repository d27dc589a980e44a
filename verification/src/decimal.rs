//! Unsigned decimal numbers in text, read the way `u64::from_str` reads them.
use vstd::prelude::*;

verus! {

/// Why a piece of text is not an unsigned 64-bit decimal number.
#[derive(Debug, Clone, Copy, PartialEq, Eq)]
pub enum IntErrorKind {
    /// The text is empty.
    Empty,
    /// The text holds something other than an optional `+` and digits.
    InvalidDigit,
    /// The digits name a number above `u64::MAX`.
    PosOverflow,
}

impl IntErrorKind {
    /// The text `u64::from_str` gives for this kind of error.
    pub open spec fn message_spec(&self) -> Seq<char> {
        match self {
            IntErrorKind::Empty => "cannot parse integer from empty string"@,
            IntErrorKind::InvalidDigit => "invalid digit found in string"@,
            IntErrorKind::PosOverflow => "number too large to fit in target type"@,
        }
    }

    /// The text `u64::from_str` gives for this kind of error.
    pub fn message(&self) -> (r: String)
        ensures
            r@ == self.message_spec(),
    {
        match self {
            IntErrorKind::Empty => String::from_str("cannot parse integer from empty string"),
            IntErrorKind::InvalidDigit => String::from_str("invalid digit found in string"),
            IntErrorKind::PosOverflow => String::from_str("number too large to fit in target type"),
        }
    }
}

pub open spec fn is_digit(c: char) -> bool {
    '0' <= c && c <= '9'
}

pub open spec fn digit_value(c: char) -> nat {
    (c as int - '0' as int) as nat
}

/// The number that a run of digits names, most significant digit first.
pub open spec fn decimal_value(d: Seq<char>) -> nat
    decreases d.len(),
{
    if d.len() == 0 {
        0
    } else {
        decimal_value(d.drop_last()) * 10 + digit_value(d.last())
    }
}

/// How many digits the text starts with.
pub open spec fn leading_digits(d: Seq<char>) -> nat
    decreases d.len(),
{
    if d.len() == 0 || !is_digit(d[0]) {
        0
    } else {
        1 + leading_digits(d.drop_first())
    }
}

/// The text with one leading `+` taken off, where something follows it.
pub open spec fn unsigned_digits(s: Seq<char>) -> Seq<char> {
    if s.len() > 1 && s[0] == '+' {
        s.drop_first()
    } else {
        s
    }
}

/// What reading `s` as a `u64` gives: an empty text is `Empty`; a run of
/// leading digits that already names more than `u64::MAX` is `PosOverflow`;
/// any other character after that run is `InvalidDigit`; else the number.
pub open spec fn parse_u64_spec(s: Seq<char>) -> Result<u64, IntErrorKind> {
    let d = unsigned_digits(s);
    let k = leading_digits(d);
    if s.len() == 0 {
        Err(IntErrorKind::Empty)
    } else if decimal_value(d.take(k as int)) > u64::MAX {
        Err(IntErrorKind::PosOverflow)
    } else if k < d.len() {
        Err(IntErrorKind::InvalidDigit)
    } else {
        Ok(decimal_value(d) as u64)
    }
}

/// `leading_digits` is the index of the first non-digit.
pub proof fn lemma_leading_digits(d: Seq<char>, i: int)
    requires
        0 <= i <= d.len(),
        forall|j: int| 0 <= j < i ==> is_digit(#[trigger] d[j]),
        i == d.len() || !is_digit(d[i]),
    ensures
        leading_digits(d) == i,
    decreases i,
{
    if i > 0 {
        let t = d.drop_first();
        assert forall|j: int| 0 <= j < i - 1 implies is_digit(#[trigger] t[j]) by {
            assert(t[j] == d[j + 1]);
        }
        if i - 1 < t.len() {
            assert(t[i - 1] == d[i]);
        }
        lemma_leading_digits(t, i - 1);
    }
}

/// Adding digits never makes the number smaller.
pub proof fn lemma_decimal_prefix_monotone(d: Seq<char>, i: int, k: int)
    requires
        0 <= i <= k <= d.len(),
    ensures
        decimal_value(d.take(i)) <= decimal_value(d.take(k)),
    decreases k - i,
{
    if i < k {
        lemma_decimal_prefix_monotone(d, i, k - 1);
        assert(d.take(k).drop_last() =~= d.take(k - 1));
    }
}

/// Reads a `u64` from `s` as `str::parse::<u64>` does.
pub fn parse_u64(s: &[char]) -> (r: Result<u64, IntErrorKind>)
    ensures
        r == parse_u64_spec(s@),
{
    let n = s.len();
    if n == 0 {
        return Err(IntErrorKind::Empty);
    }
    let start: usize = if n > 1 && s[0] == '+' { 1 } else { 0 };
    let ghost d = unsigned_digits(s@);
    assert(d =~= s@.skip(start as int));
    let mut acc: u64 = 0;
    let mut i: usize = start;
    while i < n
        invariant
            start <= i <= n,
            n == s@.len(),
            d =~= s@.skip(start as int),
            d == unsigned_digits(s@),
            n > 0,
            forall|j: int| 0 <= j < i - start ==> is_digit(#[trigger] d[j]),
            acc as nat == decimal_value(d.take(i - start)),
        decreases n - i,
    {
        let c = s[i];
        assert(d[i - start] == c);
        if !('0' <= c && c <= '9') {
            proof {
                lemma_leading_digits(d, i - start);
            }
            return Err(IntErrorKind::InvalidDigit);
        }
        let v: u64 = (c as u32 - '0' as u32) as u64;
        assert(d.take(i - start + 1).drop_last() =~= d.take(i - start));
        assert(d.take(i - start + 1).last() == c);
        if acc > (u64::MAX - v) / 10 {
            proof {
                let k = leading_digits(d);
                lemma_leading_digits_at_least(d, i - start + 1);
                lemma_decimal_prefix_monotone(d, i - start + 1, k as int);
                assert(acc * 10 + v > u64::MAX) by (nonlinear_arith)
                    requires
                        acc > (u64::MAX - v) / 10,
                        v <= 9,
                ;
            }
            return Err(IntErrorKind::PosOverflow);
        }
        assert(acc * 10 + v <= u64::MAX) by (nonlinear_arith)
            requires
                acc <= (u64::MAX - v) / 10,
                v <= 9,
        ;
        acc = acc * 10 + v;
        i = i + 1;
    }
    proof {
        lemma_leading_digits(d, d.len() as int);
        assert(d.take(d.len() as int) =~= d);
    }
    Ok(acc)
}

/// A text that starts with `i` digits has at least `i` leading digits.
pub proof fn lemma_leading_digits_at_least(d: Seq<char>, i: int)
    requires
        0 <= i <= d.len(),
        forall|j: int| 0 <= j < i ==> is_digit(#[trigger] d[j]),
    ensures
        i <= leading_digits(d) <= d.len(),
    decreases d.len(),
{
    if d.len() > 0 && is_digit(d[0]) {
        let t = d.drop_first();
        let i2 = if i > 0 { i - 1 } else { 0 };
        assert forall|j: int| 0 <= j < i2 implies is_digit(#[trigger] t[j]) by {
            assert(t[j] == d[j + 1]);
        }
        lemma_leading_digits_at_least(t, i2);
    }
}

/// The digit character for `d < 10`.
pub open spec fn digit_char(d: nat) -> char {
    ('0' as int + d) as char
}

/// The usual decimal spelling of `n`: no sign, no leading zeros.
pub open spec fn decimal_text(n: nat) -> Seq<char>
    decreases n,
{
    if n < 10 {
        seq![digit_char(n)]
    } else {
        decimal_text(n / 10).push(digit_char(n % 10))
    }
}

/// The decimal spelling of `n` is a non-empty run of digits that names `n`.
pub proof fn lemma_decimal_text(n: nat)
    ensures
        decimal_text(n).len() >= 1,
        forall|j: int| 0 <= j < decimal_text(n).len() ==> is_digit(#[trigger] decimal_text(n)[j]),
        decimal_value(decimal_text(n)) == n,
    decreases n,
{
    let t = decimal_text(n);
    if n < 10 {
        assert(t.drop_last().len() == 0);
        assert(decimal_value(t.drop_last()) == 0);
        assert(t.last() == digit_char(n));
        assert(digit_value(digit_char(n)) == n);
        assert(decimal_value(t) == decimal_value(t.drop_last()) * 10 + digit_value(t.last()));
    } else {
        lemma_decimal_text(n / 10);
        let p = decimal_text(n / 10);
        assert(t.drop_last() =~= p);
        assert(t.last() == digit_char(n % 10));
        assert(digit_value(digit_char(n % 10)) == n % 10);
        assert((n / 10) * 10 + n % 10 == n);
        assert(decimal_value(t) == decimal_value(t.drop_last()) * 10 + digit_value(t.last()));
        assert forall|j: int| 0 <= j < t.len() implies is_digit(#[trigger] t[j]) by {
            if j < p.len() {
                assert(t[j] == p[j]);
            }
        }
    }
}

/// Reading the decimal spelling of a `u64` gives it back.
pub proof fn lemma_parse_decimal_text(n: u64)
    ensures
        parse_u64_spec(decimal_text(n as nat)) == Ok::<u64, IntErrorKind>(n),
{
    let t = decimal_text(n as nat);
    lemma_decimal_text(n as nat);
    assert(is_digit(t[0]));
    assert(unsigned_digits(t) == t);
    lemma_leading_digits(t, t.len() as int);
    assert(t.take(t.len() as int) =~= t);
}

/// The digit `d < 10` as a one-character text.
fn digit_text(d: u64) -> (r: &'static str)
    requires
        d < 10,
    ensures
        r@ == seq![digit_char(d as nat)],
{
    proof {
        reveal_strlit("0");
        reveal_strlit("1");
        reveal_strlit("2");
        reveal_strlit("3");
        reveal_strlit("4");
        reveal_strlit("5");
        reveal_strlit("6");
        reveal_strlit("7");
        reveal_strlit("8");
        reveal_strlit("9");
    }
    let r = if d == 0 {
        "0"
    } else if d == 1 {
        "1"
    } else if d == 2 {
        "2"
    } else if d == 3 {
        "3"
    } else if d == 4 {
        "4"
    } else if d == 5 {
        "5"
    } else if d == 6 {
        "6"
    } else if d == 7 {
        "7"
    } else if d == 8 {
        "8"
    } else {
        "9"
    };
    assert(r@ =~= seq![digit_char(d as nat)]);
    r
}

/// Appends the decimal spelling of `n` to `s`.
pub fn push_decimal(s: &mut String, n: u64)
    ensures
        final(s)@ == old(s)@ + decimal_text(n as nat),
    decreases n,
{
    if n >= 10 {
        push_decimal(s, n / 10);
    }
    s.append(digit_text(n % 10));
    assert(old(s)@ + decimal_text(n as nat) =~= if n >= 10 {
        old(s)@ + decimal_text((n / 10) as nat) + seq![digit_char((n % 10) as nat)]
    } else {
        old(s)@ + seq![digit_char(n as nat)]
    });
}

/// The decimal spelling of `c`, with a leading `-` when it is negative.
pub open spec fn signed_decimal_text(c: int) -> Seq<char> {
    if c < 0 {
        seq!['-'] + decimal_text((-c) as nat)
    } else {
        decimal_text(c as nat)
    }
}

/// Appends the decimal spelling of `c`, with a leading `-` when it is negative.
pub fn push_signed_decimal(s: &mut String, c: i32)
    ensures
        final(s)@ == old(s)@ + signed_decimal_text(c as int),
{
    if c < 0 {
        s.append("-");
        proof {
            reveal_strlit("-");
        }
        let m: u64 = (0 - (c as i64)) as u64;
        push_decimal(s, m);
        assert(s@ =~= old(s)@ + signed_decimal_text(c as int));
    } else {
        push_decimal(s, c as u64);
    }
}

} // verus!
