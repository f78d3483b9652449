//! Clock and calendar text: `"HH:MM"`, `"hh:mm AM"`, `"YYYY-MM-DD"`.

use vstd::prelude::*;

verus! {

/// Relies on std's `FromIterator<&char> for String`: the characters in order.
#[verifier::external_body]
pub(crate) fn string_of(chars: &[char]) -> (r: String)
    ensures
        r@ == chars@,
{
    chars.iter().collect()
}

/// The ASCII digit of `d` (0 to 9).
pub open spec fn digit_char(d: int) -> char {
    if d == 0 {
        '0'
    } else if d == 1 {
        '1'
    } else if d == 2 {
        '2'
    } else if d == 3 {
        '3'
    } else if d == 4 {
        '4'
    } else if d == 5 {
        '5'
    } else if d == 6 {
        '6'
    } else if d == 7 {
        '7'
    } else if d == 8 {
        '8'
    } else {
        '9'
    }
}

/// Decimal digits of `n`, most significant first, without leading zeros.
pub open spec fn decimal(n: nat) -> Seq<char>
    decreases n,
{
    if n < 10 {
        seq![digit_char(n as int)]
    } else {
        decimal(n / 10).push(digit_char((n % 10) as int))
    }
}

/// `s` preceded by as many `'0'` as bring it to `width` characters.
pub open spec fn zero_padded(s: Seq<char>, width: nat) -> Seq<char> {
    if s.len() < width {
        Seq::new((width - s.len()) as nat, |_i: int| '0') + s
    } else {
        s
    }
}

/// Two digits of `n` (0 to 99).
pub open spec fn two_digits(n: int) -> Seq<char> {
    seq![digit_char(n / 10), digit_char(n % 10)]
}

/// The year as four digits at least, with a sign outside 0 to 9999.
pub open spec fn year_text(y: int) -> Seq<char> {
    if 0 <= y && y <= 9999 {
        zero_padded(decimal(y as nat), 4)
    } else if y < 0 {
        seq!['-'] + zero_padded(decimal((-y) as nat), 4)
    } else {
        seq!['+'] + zero_padded(decimal(y as nat), 4)
    }
}

/// `"YYYY-MM-DD"`.
pub open spec fn date_text(y: int, m: int, d: int) -> Seq<char> {
    year_text(y) + seq!['-'] + two_digits(m) + seq!['-'] + two_digits(d)
}

/// 24-hour clock `"HH:MM"` of a time of day in seconds.
pub open spec fn clock24_text(t: int) -> Seq<char> {
    two_digits(t / 3600) + seq![':'] + two_digits((t % 3600) / 60)
}

/// Hour on a 12-hour dial: 12, 1, ..., 11.
pub open spec fn dial_hour(h: int) -> int {
    if h % 12 == 0 {
        12
    } else {
        h % 12
    }
}

/// 12-hour clock `"hh:mm AM"` / `"hh:mm PM"` of a time of day in seconds.
pub open spec fn clock12_text(t: int) -> Seq<char> {
    two_digits(dial_hour(t / 3600)) + seq![':'] + two_digits((t % 3600) / 60) + if t / 3600 < 12 {
        seq![' ', 'A', 'M']
    } else {
        seq![' ', 'P', 'M']
    }
}

/// The clock of a time of day in seconds, on the 12-hour or the 24-hour dial.
pub open spec fn clock_text(t: int, use_12h: bool) -> Seq<char> {
    if use_12h {
        clock12_text(t)
    } else {
        clock24_text(t)
    }
}

/// The ASCII digit of `d`.
pub fn digit(d: u64) -> (c: char)
    requires
        d < 10,
    ensures
        c == digit_char(d as int),
{
    if d == 0 {
        '0'
    } else if d == 1 {
        '1'
    } else if d == 2 {
        '2'
    } else if d == 3 {
        '3'
    } else if d == 4 {
        '4'
    } else if d == 5 {
        '5'
    } else if d == 6 {
        '6'
    } else if d == 7 {
        '7'
    } else if d == 8 {
        '8'
    } else {
        '9'
    }
}

/// Appends the decimal digits of `n`.
pub fn push_decimal(out: &mut Vec<char>, n: u64)
    ensures
        final(out)@ == old(out)@ + decimal(n as nat),
    decreases n,
{
    if n >= 10 {
        push_decimal(out, n / 10);
        out.push(digit(n % 10));
        assert(decimal(n as nat) == decimal((n / 10) as nat).push(digit_char((n % 10) as int)));
        assert(final(out)@ =~= old(out)@ + decimal(n as nat));
    } else {
        out.push(digit(n));
        assert(final(out)@ =~= old(out)@ + decimal(n as nat));
    }
}

/// Appends the decimal digits of `n`, zero-padded to `width`.
pub fn push_padded(out: &mut Vec<char>, n: u64, width: usize)
    ensures
        final(out)@ == old(out)@ + zero_padded(decimal(n as nat), width as nat),
{
    let mut digits: Vec<char> = Vec::new();
    push_decimal(&mut digits, n);
    assert(digits@ =~= decimal(n as nat));
    let ghost start = out@;
    let mut k: usize = digits.len();
    while k < width
        invariant
            digits@ == decimal(n as nat),
            digits@.len() <= k,
            k <= width || k == digits@.len(),
            out@ == start + Seq::new((k - digits@.len()) as nat, |_i: int| '0'),
        decreases width - k,
    {
        out.push('0');
        assert(out@ =~= start + Seq::new((k + 1 - digits@.len()) as nat, |_i: int| '0'));
        k = k + 1;
    }
    let ghost padded = out@;
    let mut i: usize = 0;
    while i < digits.len()
        invariant
            0 <= i <= digits@.len(),
            out@ == padded + digits@.subrange(0, i as int),
        decreases digits@.len() - i,
    {
        out.push(digits[i]);
        assert(out@ =~= padded + digits@.subrange(0, i + 1));
        i = i + 1;
    }
    assert(digits@.subrange(0, digits@.len() as int) =~= digits@);
    if digits.len() < width {
        assert(out@ =~= old(out)@ + zero_padded(decimal(n as nat), width as nat));
    } else {
        assert(out@ =~= old(out)@ + zero_padded(decimal(n as nat), width as nat));
    }
}

/// Appends two digits of `n` (0 to 99).
pub fn push_two_digits(out: &mut Vec<char>, n: u64)
    requires
        n < 100,
    ensures
        final(out)@ == old(out)@ + two_digits(n as int),
{
    out.push(digit(n / 10));
    out.push(digit(n % 10));
    assert(out@ =~= old(out)@ + two_digits(n as int));
}

/// Appends the year as `year_text` writes it.
pub fn push_year(out: &mut Vec<char>, y: i32)
    ensures
        final(out)@ == old(out)@ + year_text(y as int),
{
    if 0 <= y && y <= 9999 {
        push_padded(out, y as u64, 4);
    } else if y < 0 {
        out.push('-');
        let ghost signed = out@;
        let magnitude: u64 = (0i64 - y as i64) as u64;
        push_padded(out, magnitude, 4);
        assert(out@ =~= old(out)@ + year_text(y as int));
    } else {
        out.push('+');
        push_padded(out, y as u64, 4);
        assert(out@ =~= old(out)@ + year_text(y as int));
    }
}

/// The date as `"YYYY-MM-DD"`.
pub fn format_date(y: i32, m: u32, d: u32) -> (r: Vec<char>)
    requires
        1 <= m <= 12,
        1 <= d <= 31,
    ensures
        r@ == date_text(y as int, m as int, d as int),
{
    let mut out: Vec<char> = Vec::new();
    push_year(&mut out, y);
    out.push('-');
    push_two_digits(&mut out, m as u64);
    out.push('-');
    push_two_digits(&mut out, d as u64);
    assert(out@ =~= date_text(y as int, m as int, d as int));
    out
}

/// The time of day `t` (seconds after midnight) on a 24-hour or 12-hour clock.
pub fn format_clock(t: i64, use_12h: bool) -> (r: Vec<char>)
    requires
        0 <= t < 86400,
    ensures
        r@ == clock_text(t as int, use_12h),
{
    let h = t / 3600;
    let m = (t % 3600) / 60;
    let mut out: Vec<char> = Vec::new();
    if use_12h {
        let dial = if h % 12 == 0 { 12 } else { h % 12 };
        push_two_digits(&mut out, dial as u64);
        out.push(':');
        push_two_digits(&mut out, m as u64);
        out.push(' ');
        if h < 12 {
            out.push('A');
        } else {
            out.push('P');
        }
        out.push('M');
    } else {
        push_two_digits(&mut out, h as u64);
        out.push(':');
        push_two_digits(&mut out, m as u64);
    }
    assert(out@ =~= clock_text(t as int, use_12h));
    out
}

/// The simulated-time offset as shown beside the controls: `[ NOW ]` for
/// none, else the whole hours with a sign (`+` for zero hours too) and, when
/// there are leftover minutes, two digits of them: `[+2h]`, `[-1h 30m]`,
/// `[+0h 15m]`.
pub open spec fn offset_label(o: int) -> Seq<char> {
    if o == 0 {
        seq!['[', ' ', 'N', 'O', 'W', ' ', ']']
    } else {
        let a = if o < 0 { -o } else { o };
        let h = a / 3600;
        let m = (a % 3600) / 60;
        let sign = if o < 0 && h > 0 { '-' } else { '+' };
        seq!['['] + seq![sign] + decimal(h as nat) + seq!['h'] + (if m == 0 {
            seq![]
        } else {
            seq![' '] + two_digits(m) + seq!['m']
        }) + seq![']']
    }
}

/// The offset label of `offset_secs` seconds.
pub fn format_offset(offset_secs: i64) -> (r: Vec<char>)
    requires
        offset_secs > i64::MIN,
    ensures
        r@ == offset_label(offset_secs as int),
{
    let mut out: Vec<char> = Vec::new();
    if offset_secs == 0 {
        out.push('[');
        out.push(' ');
        out.push('N');
        out.push('O');
        out.push('W');
        out.push(' ');
        out.push(']');
        assert(out@ =~= offset_label(offset_secs as int));
        return out;
    }
    let a: u64 = if offset_secs < 0 { (0 - offset_secs) as u64 } else { offset_secs as u64 };
    let h = a / 3600;
    let m = (a % 3600) / 60;
    out.push('[');
    if offset_secs < 0 && h > 0 {
        out.push('-');
    } else {
        out.push('+');
    }
    push_decimal(&mut out, h);
    out.push('h');
    if m != 0 {
        out.push(' ');
        push_two_digits(&mut out, m);
        out.push('m');
    }
    out.push(']');
    assert(out@ =~= offset_label(offset_secs as int));
    out
}

} // verus!
