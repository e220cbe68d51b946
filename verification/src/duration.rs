//! Timeouts written as a magnitude and a unit, such as `10s` or `250ms`.

use std::time::Duration;
use vstd::prelude::*;

verus! {

/// The unit of a timeout.
#[derive(Clone, Copy, Debug, PartialEq, Eq, Structural)]
pub enum TimeUnit {
    Millis,
    Seconds,
    Minutes,
    Hours,
    Days,
}

/// Why a text is no timeout.
#[derive(Clone, Copy, Debug, PartialEq, Eq, Structural)]
pub enum TimeoutError {
    /// The text holds no digit.
    NoValue,
    /// What stands before the unit is no number that fits 64 bits.
    InvalidMagnitude,
    /// What follows the last digit is none of `ms`, `s`, `m`, `h` and `d`,
    /// or is missing behind a magnitude other than zero.
    InvalidUnit,
    /// The timeout does not fit 64 bits once it is counted in milliseconds.
    Overflow,
}

/// The span of time that lasts the given number of milliseconds.
pub uninterp spec fn duration_of_millis(millis: u64) -> Duration;

/// `Duration::from_millis`: the span of time that lasts `millis`
/// milliseconds, the same for the same number.
pub assume_specification[ Duration::from_millis ](millis: u64) -> (d: Duration)
    ensures
        d == duration_of_millis(millis),
;

/// Whether a character is white space, as Unicode lists it.
pub open spec fn is_whitespace(c: char) -> bool {
    let n = c as u32;
    ||| 0x09 <= n <= 0x0d
    ||| n == 0x20
    ||| n == 0x85
    ||| n == 0xa0
    ||| n == 0x1680
    ||| 0x2000 <= n <= 0x200a
    ||| n == 0x2028
    ||| n == 0x2029
    ||| n == 0x202f
    ||| n == 0x205f
    ||| n == 0x3000
}

/// Whether a character is one of the ten digits.
pub open spec fn is_digit(c: char) -> bool {
    0x30 <= c as u32 <= 0x39
}

/// The number that a digit stands for.
pub open spec fn digit_value(c: char) -> nat {
    (c as u32 - 0x30) as nat
}

/// The index of the first character at or after `i` that is no white
/// space, or the length of `s` where there is none.
pub open spec fn skip_whitespace(s: Seq<char>, i: int) -> int
    decreases s.len() - i,
{
    if 0 <= i < s.len() && is_whitespace(s[i]) {
        skip_whitespace(s, i + 1)
    } else {
        i
    }
}

/// The index behind the last character before `j` that is no white space
/// and does not lie before `from`, or `from` where there is none.
pub open spec fn drop_whitespace(s: Seq<char>, from: int, j: int) -> int
    decreases j,
{
    if 0 <= from < j <= s.len() && is_whitespace(s[j - 1]) {
        drop_whitespace(s, from, j - 1)
    } else {
        j
    }
}

/// A text without the white space at its start and at its end.
pub open spec fn trimmed(s: Seq<char>) -> Seq<char> {
    let from = skip_whitespace(s, 0);
    s.subrange(from, drop_whitespace(s, from, s.len() as int))
}

/// The index behind the last digit before `j`, or zero where there is
/// none.
pub open spec fn magnitude_end(s: Seq<char>, j: int) -> int
    decreases j,
{
    if 0 < j <= s.len() && !is_digit(s[j - 1]) {
        magnitude_end(s, j - 1)
    } else {
        j
    }
}

/// The number that a sequence of digits writes in base ten.
pub open spec fn decimal_value(digits: Seq<char>) -> nat
    decreases digits.len(),
{
    if digits.len() == 0 {
        0
    } else {
        decimal_value(digits.drop_last()) * 10 + digit_value(digits.last())
    }
}

/// Whether every character is a digit.
pub open spec fn all_digits(s: Seq<char>) -> bool {
    forall|i: int| 0 <= i < s.len() ==> is_digit(#[trigger] s[i])
}

/// A magnitude without the plus sign that may stand before its digits.
pub open spec fn unsigned(s: Seq<char>) -> Seq<char> {
    if s.len() > 0 && s[0] == '+' {
        s.drop_first()
    } else {
        s
    }
}

/// The number that a magnitude writes: at least one digit, a plus sign
/// before them or none, and a value that fits 64 bits.
pub open spec fn magnitude(s: Seq<char>) -> Option<u64> {
    let digits = unsigned(s);
    if digits.len() > 0 && all_digits(digits) && decimal_value(digits) <= u64::MAX {
        Some(decimal_value(digits) as u64)
    } else {
        None
    }
}

/// The text that names a unit.
pub open spec fn suffix(unit: TimeUnit) -> Seq<char> {
    match unit {
        TimeUnit::Millis => seq!['m', 's'],
        TimeUnit::Seconds => seq!['s'],
        TimeUnit::Minutes => seq!['m'],
        TimeUnit::Hours => seq!['h'],
        TimeUnit::Days => seq!['d'],
    }
}

/// The number of milliseconds in one unit.
pub open spec fn millis_per(unit: TimeUnit) -> nat {
    match unit {
        TimeUnit::Millis => 1,
        TimeUnit::Seconds => 1000,
        TimeUnit::Minutes => 60000,
        TimeUnit::Hours => 3600000,
        TimeUnit::Days => 86400000,
    }
}

/// The unit that a text names, if it names one.
pub open spec fn unit_of(s: Seq<char>) -> Option<TimeUnit> {
    if s == suffix(TimeUnit::Millis) {
        Some(TimeUnit::Millis)
    } else if s == suffix(TimeUnit::Seconds) {
        Some(TimeUnit::Seconds)
    } else if s == suffix(TimeUnit::Minutes) {
        Some(TimeUnit::Minutes)
    } else if s == suffix(TimeUnit::Hours) {
        Some(TimeUnit::Hours)
    } else if s == suffix(TimeUnit::Days) {
        Some(TimeUnit::Days)
    } else {
        None
    }
}

/// The number of milliseconds by which a magnitude is multiplied. A
/// magnitude of zero needs no unit.
pub open spec fn multiplier(unit: Seq<char>, magnitude: u64) -> Option<nat> {
    if unit.len() == 0 {
        if magnitude == 0 {
            Some(0)
        } else {
            None
        }
    } else {
        match unit_of(unit) {
            Some(u) => Some(millis_per(u)),
            None => None,
        }
    }
}

/// The timeout that a text without white space around it writes, in
/// milliseconds.
pub open spec fn plain_timeout_millis(t: Seq<char>) -> Result<u64, TimeoutError> {
    let end = magnitude_end(t, t.len() as int);
    if end == 0 {
        Err(TimeoutError::NoValue)
    } else {
        match magnitude(t.take(end)) {
            None => Err(TimeoutError::InvalidMagnitude),
            Some(m) => match multiplier(t.skip(end), m) {
                None => Err(TimeoutError::InvalidUnit),
                Some(per) => if m * per > u64::MAX {
                    Err(TimeoutError::Overflow)
                } else {
                    Ok((m * per) as u64)
                },
            },
        }
    }
}

/// The timeout that a text writes, in milliseconds. White space around
/// it does not count.
pub open spec fn timeout_millis(s: Seq<char>) -> Result<u64, TimeoutError> {
    plain_timeout_millis(trimmed(s))
}

/// The timeout that a text writes.
pub open spec fn timeout(s: Seq<char>) -> Result<Duration, TimeoutError> {
    match timeout_millis(s) {
        Ok(millis) => Ok(duration_of_millis(millis)),
        Err(e) => Err(e),
    }
}

/// Tells whether a character is white space.
pub fn char_is_whitespace(c: char) -> (r: bool)
    ensures
        r == is_whitespace(c),
{
    let n: u32 = c as u32;
    (0x09 <= n && n <= 0x0d) || n == 0x20 || n == 0x85 || n == 0xa0 || n == 0x1680 || (0x2000 <= n
        && n <= 0x200a) || n == 0x2028 || n == 0x2029 || n == 0x202f || n == 0x205f || n == 0x3000
}

/// Tells whether a character is a digit.
pub fn char_is_digit(c: char) -> (r: bool)
    ensures
        r == is_digit(c),
{
    let n: u32 = c as u32;
    0x30 <= n && n <= 0x39
}

/// The characters of a text.
fn chars_of(s: &str) -> (v: Vec<char>)
    ensures
        v@ == s@,
{
    let mut v: Vec<char> = Vec::new();
    for c in it: s.chars()
        invariant
            v@ == it.seq().take(it.index() as int),
            it.seq() == s@,
    {
        v.push(c);
    }
    v
}

/// The characters of a text, without the white space at its start and at
/// its end.
fn trimmed_chars(s: &str) -> (t: Vec<char>)
    ensures
        t@ == trimmed(s@),
{
    let v = chars_of(s);
    let mut from: usize = 0;
    while from < v.len() && char_is_whitespace(v[from])
        invariant
            from <= v@.len(),
            skip_whitespace(v@, 0) == skip_whitespace(v@, from as int),
        decreases v@.len() - from,
    {
        from += 1;
    }
    let mut to: usize = v.len();
    while from < to && char_is_whitespace(v[to - 1])
        invariant
            from <= to <= v@.len(),
            drop_whitespace(v@, from as int, v@.len() as int) == drop_whitespace(
                v@,
                from as int,
                to as int,
            ),
        decreases to,
    {
        to -= 1;
    }
    let mut t: Vec<char> = Vec::new();
    let mut i: usize = from;
    while i < to
        invariant
            from <= i <= to <= v@.len(),
            t@ == v@.subrange(from as int, i as int),
        decreases to - i,
    {
        t.push(v[i]);
        i += 1;
    }
    t
}

/// The value of a sequence of digits is at least the value of each of its
/// beginnings.
proof fn lemma_decimal_value_grows(digits: Seq<char>, n: int)
    requires
        0 <= n <= digits.len(),
    ensures
        decimal_value(digits.take(n)) <= decimal_value(digits),
    decreases digits.len(),
{
    if n < digits.len() {
        lemma_decimal_value_grows(digits.drop_last(), n);
        assert(digits.drop_last().take(n) == digits.take(n));
    } else {
        assert(digits.take(n) == digits);
    }
}

/// Reads the magnitude that stands in the first `end` characters.
fn read_magnitude(t: &Vec<char>, end: usize) -> (r: Option<u64>)
    requires
        0 < end <= t@.len(),
    ensures
        r == magnitude(t@.take(end as int)),
{
    let ghost whole = t@.take(end as int);
    let start: usize = if t[0] == '+' {
        1
    } else {
        0
    };
    let ghost digits = unsigned(whole);
    assert(digits == t@.subrange(start as int, end as int));
    if start == end {
        return None;
    }
    let mut value: u64 = 0;
    let mut i: usize = start;
    while i < end
        invariant
            start <= i <= end <= t@.len(),
            digits == t@.subrange(start as int, end as int),
            digits == unsigned(t@.take(end as int)),
            all_digits(digits.take(i - start)),
            value == decimal_value(digits.take(i - start)),
        decreases end - i,
    {
        let c = t[i];
        proof {
            assert(digits.take(i - start + 1).drop_last() == digits.take(i - start));
            assert(digits.take(i - start + 1).last() == c);
            lemma_decimal_value_grows(digits, i - start + 1);
        }
        if !char_is_digit(c) {
            assert(!is_digit(digits[i - start]));
            return None;
        }
        let d: u64 = (c as u32 - 0x30) as u64;
        assert(d == digit_value(c));
        let next = match value.checked_mul(10) {
            Some(tens) => tens.checked_add(d),
            None => None,
        };
        match next {
            Some(n) => {
                value = n;
            },
            None => {
                return None;
            },
        }
        i += 1;
    }
    assert(digits.take(end - start) == digits);
    Some(value)
}

/// Reads the number of milliseconds by which a magnitude is multiplied
/// from the characters that follow it.
fn read_multiplier(t: &Vec<char>, end: usize, magnitude: u64) -> (r: Option<u64>)
    requires
        end <= t@.len(),
    ensures
        match multiplier(t@.skip(end as int), magnitude) {
            Some(per) => r == Some(per as u64),
            None => r is None,
        },
{
    let ghost unit = t@.skip(end as int);
    let n = t.len() - end;
    assert(unit.len() == n);
    if n == 0 {
        if magnitude == 0 {
            Some(0)
        } else {
            None
        }
    } else if n == 1 {
        let c = t[end];
        assert(unit[0] == c);
        if c == 's' {
            assert(unit =~= suffix(TimeUnit::Seconds));
            Some(1000)
        } else if c == 'm' {
            assert(unit =~= suffix(TimeUnit::Minutes));
            Some(60000)
        } else if c == 'h' {
            assert(unit =~= suffix(TimeUnit::Hours));
            Some(3600000)
        } else if c == 'd' {
            assert(unit =~= suffix(TimeUnit::Days));
            Some(86400000)
        } else {
            None
        }
    } else if n == 2 {
        assert(unit[0] == t@[end as int]);
        assert(unit[1] == t@[end + 1]);
        if t[end] == 'm' && t[end + 1] == 's' {
            assert(unit =~= suffix(TimeUnit::Millis));
            Some(1)
        } else {
            None
        }
    } else {
        None
    }
}

/// Reads a timeout in milliseconds. The text is a magnitude, written in
/// digits, and one of the units `ms`, `s`, `m`, `h` and `d`; a magnitude of
/// zero may stand alone. White space around the text does not count.
pub fn parse_timeout_millis(s: &str) -> (r: Result<u64, TimeoutError>)
    ensures
        r == timeout_millis(s@),
{
    let t = trimmed_chars(s);
    let mut end: usize = t.len();
    while end > 0 && !char_is_digit(t[end - 1])
        invariant
            end <= t@.len(),
            magnitude_end(t@, t@.len() as int) == magnitude_end(t@, end as int),
        decreases end,
    {
        end -= 1;
    }
    if end == 0 {
        return Err(TimeoutError::NoValue);
    }
    let m = match read_magnitude(&t, end) {
        Some(m) => m,
        None => {
            return Err(TimeoutError::InvalidMagnitude);
        },
    };
    let per = match read_multiplier(&t, end, m) {
        Some(per) => per,
        None => {
            return Err(TimeoutError::InvalidUnit);
        },
    };
    match m.checked_mul(per) {
        Some(millis) => Ok(millis),
        None => Err(TimeoutError::Overflow),
    }
}

/// Reads a timeout. See [`parse_timeout_millis`].
pub fn parse_timeout(s: &str) -> (r: Result<Duration, TimeoutError>)
    ensures
        r == timeout(s@),
{
    match parse_timeout_millis(s) {
        Ok(millis) => Ok(Duration::from_millis(millis)),
        Err(e) => Err(e),
    }
}

/// The digit that stands for a number below ten.
pub open spec fn digit_char(d: nat) -> char {
    ((d + 0x30) as u8) as char
}

/// A number written in base ten, without leading zeros.
pub open spec fn decimal(n: nat) -> Seq<char>
    decreases n,
{
    if n < 10 {
        seq![digit_char(n)]
    } else {
        decimal(n / 10).push(digit_char(n % 10))
    }
}

/// A timeout written as a magnitude and its unit.
pub open spec fn written(magnitude: u64, unit: TimeUnit) -> Seq<char> {
    decimal(magnitude as nat) + suffix(unit)
}

/// The text of a digit.
fn digit_text(d: u64) -> (r: &'static str)
    requires
        d < 10,
    ensures
        r@ == seq![digit_char(d as nat)],
{
    proof {
        reveal_strlit("0");
        reveal_strlit("1");
        reveal_strlit("2");
        reveal_strlit("3");
        reveal_strlit("4");
        reveal_strlit("5");
        reveal_strlit("6");
        reveal_strlit("7");
        reveal_strlit("8");
        reveal_strlit("9");
    }
    let r = if d == 0 {
        "0"
    } else if d == 1 {
        "1"
    } else if d == 2 {
        "2"
    } else if d == 3 {
        "3"
    } else if d == 4 {
        "4"
    } else if d == 5 {
        "5"
    } else if d == 6 {
        "6"
    } else if d == 7 {
        "7"
    } else if d == 8 {
        "8"
    } else {
        "9"
    };
    assert(r@ =~= seq![digit_char(d as nat)]);
    r
}

/// Appends a number in base ten.
fn append_decimal(text: &mut String, n: u64)
    ensures
        final(text)@ == old(text)@ + decimal(n as nat),
    decreases n,
{
    if n >= 10 {
        append_decimal(text, n / 10);
    }
    text.append(digit_text(n % 10));
    assert(text@ =~= old(text)@ + decimal(n as nat));
}

impl TimeUnit {
    /// The text that names this unit.
    pub fn suffix(self) -> (r: &'static str)
        ensures
            r@ == suffix(self),
    {
        proof {
            reveal_strlit("ms");
            reveal_strlit("s");
            reveal_strlit("m");
            reveal_strlit("h");
            reveal_strlit("d");
        }
        let r = match self {
            TimeUnit::Millis => "ms",
            TimeUnit::Seconds => "s",
            TimeUnit::Minutes => "m",
            TimeUnit::Hours => "h",
            TimeUnit::Days => "d",
        };
        assert(r@ =~= suffix(self));
        r
    }

    /// The number of milliseconds in one unit.
    pub fn millis(self) -> (r: u64)
        ensures
            r == millis_per(self),
    {
        match self {
            TimeUnit::Millis => 1,
            TimeUnit::Seconds => 1000,
            TimeUnit::Minutes => 60000,
            TimeUnit::Hours => 3600000,
            TimeUnit::Days => 86400000,
        }
    }
}

/// Writes a timeout as a magnitude and its unit.
pub fn format_timeout(magnitude: u64, unit: TimeUnit) -> (r: String)
    ensures
        r@ == written(magnitude, unit),
{
    let mut r = String::new();
    append_decimal(&mut r, magnitude);
    r.append(unit.suffix());
    r
}

/// A number written in base ten is made of digits, at least one, and
/// writes that number.
pub proof fn lemma_decimal(n: nat)
    ensures
        decimal(n).len() > 0,
        all_digits(decimal(n)),
        decimal_value(decimal(n)) == n,
    decreases n,
{
    if n < 10 {
        assert(decimal(n).drop_last() =~= Seq::<char>::empty());
        assert(decimal_value(decimal(n).drop_last()) == 0);
    } else {
        lemma_decimal(n / 10);
        assert(decimal(n).drop_last() =~= decimal(n / 10));
    }
}

/// Round trip: a timeout that is written as a magnitude and its unit reads
/// as that many units, unless that is more milliseconds than fit 64 bits.
pub proof fn lemma_written_reads_back(count: u64, unit: TimeUnit)
    ensures
        timeout_millis(written(count, unit)) == if count * millis_per(unit) <= u64::MAX {
            Ok::<u64, TimeoutError>((count * millis_per(unit)) as u64)
        } else {
            Err(TimeoutError::Overflow)
        },
{
    let digits = decimal(count as nat);
    let unit_text = suffix(unit);
    let text = written(count, unit);
    let n = digits.len() as int;
    lemma_decimal(count as nat);
    assert(is_digit(digits[0]));
    assert(is_digit(digits[n - 1]));
    assert(text[0] == digits[0]);
    assert(text[n - 1] == digits[n - 1]);
    assert(text[n] == unit_text[0]);
    assert(text[text.len() - 1] == unit_text[unit_text.len() - 1]);
    assert(skip_whitespace(text, 0) == 0);
    assert(drop_whitespace(text, 0, text.len() as int) == text.len());
    assert(trimmed(text) =~= text);
    assert(magnitude_end(text, n) == n);
    assert(magnitude_end(text, n + 1) == n);
    if unit == TimeUnit::Millis {
        assert(text[n + 1] == unit_text[1]);
        assert(magnitude_end(text, n + 2) == n);
    }
    assert(magnitude_end(text, text.len() as int) == n);
    assert(text.take(n) =~= digits);
    assert(text.skip(n) =~= unit_text);
    assert(unsigned(digits) == digits);
    assert(magnitude(digits) == Some(count));
    assert(unit_of(unit_text) == Some(unit)) by {
        assert(unit_text[0] == suffix(unit)[0]);
    }
}

/// White space around a timeout does not change what it reads as.
pub proof fn lemma_trimmed_reads_the_same(s: Seq<char>)
    ensures
        timeout_millis(trimmed(s)) == timeout_millis(s),
{
    lemma_trimmed_is_trim(s);
}

/// What taking the white space off means: the text falls into white space,
/// what is left, and white space again; and what is left neither starts
/// nor ends with white space, so that taking the white space off once more
/// changes nothing.
pub proof fn lemma_trimmed_is_trim(s: Seq<char>)
    ensures
        0 <= skip_whitespace(s, 0) <= drop_whitespace(s, skip_whitespace(s, 0), s.len() as int)
            <= s.len(),
        forall|i: int| 0 <= i < skip_whitespace(s, 0) ==> is_whitespace(#[trigger] s[i]),
        forall|i: int|
            drop_whitespace(s, skip_whitespace(s, 0), s.len() as int) <= i < s.len()
                ==> is_whitespace(#[trigger] s[i]),
        trimmed(s).len() > 0 ==> !is_whitespace(trimmed(s)[0]) && !is_whitespace(trimmed(s).last()),
        trimmed(trimmed(s)) == trimmed(s),
{
    let from = skip_whitespace(s, 0);
    lemma_skip_whitespace(s, 0);
    let to = drop_whitespace(s, from, s.len() as int);
    lemma_drop_whitespace(s, from, s.len() as int);
    let t = trimmed(s);
    if t.len() > 0 {
        assert(t[0] == s[from]);
        assert(t.last() == s[to - 1]);
        assert(skip_whitespace(t, 0) == 0);
        assert(drop_whitespace(t, 0, t.len() as int) == t.len());
        assert(t.subrange(0, t.len() as int) =~= t);
    } else {
        assert(skip_whitespace(t, 0) == 0);
        assert(drop_whitespace(t, 0, 0) == 0);
        assert(t.subrange(0, 0) =~= t);
    }
}

/// Where the search for a character that is no white space ends.
proof fn lemma_skip_whitespace(s: Seq<char>, i: int)
    requires
        0 <= i <= s.len(),
    ensures
        i <= skip_whitespace(s, i) <= s.len(),
        skip_whitespace(s, i) < s.len() ==> !is_whitespace(s[skip_whitespace(s, i)]),
        forall|k: int| i <= k < skip_whitespace(s, i) ==> is_whitespace(#[trigger] s[k]),
    decreases s.len() - i,
{
    if i < s.len() && is_whitespace(s[i]) {
        lemma_skip_whitespace(s, i + 1);
    }
}

/// Where the search backwards for a character that is no white space
/// ends.
proof fn lemma_drop_whitespace(s: Seq<char>, from: int, j: int)
    requires
        0 <= from <= j <= s.len(),
    ensures
        from <= drop_whitespace(s, from, j) <= j,
        from < drop_whitespace(s, from, j) ==> !is_whitespace(s[drop_whitespace(s, from, j) - 1]),
        forall|k: int| drop_whitespace(s, from, j) <= k < j ==> is_whitespace(#[trigger] s[k]),
    decreases j,
{
    if from < j && is_whitespace(s[j - 1]) {
        lemma_drop_whitespace(s, from, j - 1);
    }
}

/// Where the magnitude ends: behind the last digit of the text. Where that
/// is at the start, the text holds no digit.
pub proof fn lemma_magnitude_end(s: Seq<char>, j: int)
    requires
        0 <= j <= s.len(),
    ensures
        0 <= magnitude_end(s, j) <= j,
        magnitude_end(s, j) > 0 ==> is_digit(s[magnitude_end(s, j) - 1]),
        forall|k: int| magnitude_end(s, j) <= k < j ==> !is_digit(#[trigger] s[k]),
    decreases j,
{
    if 0 < j && !is_digit(s[j - 1]) {
        lemma_magnitude_end(s, j - 1);
    }
}

/// Why a text is no timeout, in words.
pub open spec fn description(error: TimeoutError) -> Seq<char> {
    match error {
        TimeoutError::NoValue => "does not contain a timeout duration value"@,
        TimeoutError::InvalidMagnitude => "invalid digit found in string, or number too large"@,
        TimeoutError::InvalidUnit =>
            "invalid duration unit (expected one of 'ms', 's', 'm', 'h', or 'd')"@,
        TimeoutError::Overflow => "timeout value overflows when converted to 'ms'"@,
    }
}

impl TimeoutError {
    /// Says in words why the text is no timeout.
    pub fn describe(self) -> (r: &'static str)
        ensures
            r@ == description(self),
    {
        match self {
            TimeoutError::NoValue => "does not contain a timeout duration value",
            TimeoutError::InvalidMagnitude => "invalid digit found in string, or number too large",
            TimeoutError::InvalidUnit =>
                "invalid duration unit (expected one of 'ms', 's', 'm', 'h', or 'd')",
            TimeoutError::Overflow => "timeout value overflows when converted to 'ms'",
        }
    }
}

} // verus!

