//! Calendar-aware durations and their ISO-8601 text form.
//!
//! A duration carries an independent month count and a fixed number of
//! seconds; months are not flattened to seconds, since their length depends
//! on the calendar. The text form is the ISO-8601 duration
//! `P[nY][nM][nD][T[nH][nM][nS]]`.

use vstd::prelude::*;
use vstd::string::*;

verus! {

/// Errors from parsing an ISO-8601 duration.
#[derive(Debug)]
pub enum Error {
    /// The input did not follow the duration grammar.
    Parse(String),
}

/// A calendar-aware duration: a month count plus a fixed span of seconds.
#[derive(Debug, Clone, Copy, PartialEq, Eq, Structural)]
pub struct RelativeDuration {
    /// Whole calendar months.
    pub months: i32,
    /// Fixed seconds, independent of the month component.
    pub seconds: i64,
}

impl RelativeDuration {
    /// A duration of the given number of whole months.
    pub fn months(months: i32) -> (r: RelativeDuration)
        ensures
            r.months == months,
            r.seconds == 0,
    {
        RelativeDuration { months, seconds: 0 }
    }

    /// A duration of the given number of seconds.
    pub fn seconds(seconds: i64) -> (r: RelativeDuration)
        ensures
            r.months == 0,
            r.seconds == seconds,
    {
        RelativeDuration { months: 0, seconds }
    }

    /// A duration of the given number of minutes.
    pub fn minutes(minutes: i64) -> (r: RelativeDuration)
        requires
            i64::MIN <= minutes * 60 <= i64::MAX,
        ensures
            r.months == 0,
            r.seconds == minutes * 60,
    {
        RelativeDuration { months: 0, seconds: minutes * 60 }
    }

    /// The zero duration.
    pub fn zero() -> (r: RelativeDuration)
        ensures
            r.months == 0,
            r.seconds == 0,
    {
        RelativeDuration { months: 0, seconds: 0 }
    }

    /// Replaces the seconds component, keeping the month count.
    pub fn with_seconds(self, seconds: i64) -> (r: RelativeDuration)
        ensures
            r.months == self.months,
            r.seconds == seconds,
    {
        RelativeDuration { months: self.months, seconds }
    }
}

/// Whether a character is an ASCII decimal digit.
pub open spec fn is_digit(c: char) -> bool {
    '0' <= c && c <= '9'
}

/// Numeric value of an ASCII decimal digit.
pub open spec fn digit_val(c: char) -> int {
    c as int - '0' as int
}

/// Whether every character of a sequence is an ASCII decimal digit.
pub open spec fn all_digits(s: Seq<char>) -> bool {
    forall|i: int| 0 <= i < s.len() ==> is_digit(s[i])
}

/// Value of a sequence of decimal digits, most significant first.
pub open spec fn digits_val(s: Seq<char>) -> int
    decreases s.len(),
{
    if s.len() == 0 {
        0
    } else {
        10 * digits_val(s.drop_last()) + digit_val(s.last())
    }
}

/// Whether a sequence is an optional sign followed by at least one digit.
pub open spec fn valid_int_str(s: Seq<char>) -> bool {
    if s.len() > 0 && (s[0] == '+' || s[0] == '-') {
        s.len() > 1 && all_digits(s.skip(1))
    } else {
        s.len() > 0 && all_digits(s)
    }
}

/// Signed value of a decimal integer string.
pub open spec fn int_str_val(s: Seq<char>) -> int {
    if s.len() > 0 && s[0] == '-' {
        -digits_val(s.skip(1))
    } else if s.len() > 0 && s[0] == '+' {
        digits_val(s.skip(1))
    } else {
        digits_val(s)
    }
}

/// Whether a sequence is a decimal integer string whose value fits in a
/// 32-bit signed integer.
pub open spec fn parses_to_i32(s: Seq<char>) -> bool {
    valid_int_str(s) && i32::MIN <= int_str_val(s) <= i32::MAX
}

/// Index of the first occurrence of a character, or -1 if absent.
pub open spec fn find_idx(s: Seq<char>, t: char) -> int
    decreases s.len(),
{
    if s.len() == 0 {
        -1
    } else if s[0] == t {
        0
    } else {
        let r = find_idx(s.skip(1), t);
        if r < 0 {
            -1
        } else {
            1 + r
        }
    }
}

/// Splitting a field off a duration segment: everything before the first
/// occurrence of the terminator is read as a 32-bit integer and the rest is
/// returned; an absent terminator yields the whole input and zero; a
/// malformed or out-of-range integer yields nothing.
pub open spec fn spec_get_terminated(s: Seq<char>, t: char) -> Option<(Seq<char>, int)> {
    let i = find_idx(s, t);
    if i < 0 {
        Some((s, 0))
    } else {
        let intpart = s.take(i);
        if parses_to_i32(intpart) {
            Some((s.skip(i + 1), int_str_val(intpart)))
        } else {
            None
        }
    }
}

/// Reading three terminated fields in order; any text left after the third
/// field, or a malformed field, yields nothing.
pub open spec fn spec_parse_fields(s: Seq<char>, c1: char, c2: char, c3: char) -> Option<
    (int, int, int),
> {
    match spec_get_terminated(s, c1) {
        None => None,
        Some((r1, v1)) => match spec_get_terminated(r1, c2) {
            None => None,
            Some((r2, v2)) => match spec_get_terminated(r2, c3) {
                None => None,
                Some((r3, v3)) => if r3.len() == 0 {
                    Some((v1, v2, v3))
                } else {
                    None
                },
            },
        },
    }
}

/// Combined seconds of a day/hour/minute/second reading.
pub open spec fn spec_dhms_seconds(d: int, h: int, mi: int, s: int) -> int {
    ((d * 24 + h) * 60 + mi) * 60 + s
}

/// The whole duration grammar: a leading `P`, a date part up to an optional
/// `T`, and a time part after it. Yields the month count and the seconds,
/// or nothing when the text is malformed or the month count overflows a
/// 32-bit integer.
pub open spec fn spec_parse_duration(s: Seq<char>) -> Option<(int, int)> {
    if s.len() == 0 || s[0] != 'P' {
        None
    } else {
        let rest = s.skip(1);
        let ti = find_idx(rest, 'T');
        let date = if ti < 0 {
            rest
        } else {
            rest.take(ti)
        };
        let time = if ti < 0 {
            Seq::<char>::empty()
        } else {
            rest.skip(ti + 1)
        };
        match spec_parse_fields(date, 'Y', 'M', 'D') {
            None => None,
            Some((y, mo, d)) => match spec_parse_fields(time, 'H', 'M', 'S') {
                None => None,
                Some((h, mi, se)) => if i32::MIN <= y * 12 + mo <= i32::MAX {
                    Some((y * 12 + mo, spec_dhms_seconds(d, h, mi, se)))
                } else {
                    None
                },
            },
        }
    }
}

/// The character of a single decimal digit.
pub open spec fn spec_digit_char(d: int) -> char {
    if d == 0 {
        '0'
    } else if d == 1 {
        '1'
    } else if d == 2 {
        '2'
    } else if d == 3 {
        '3'
    } else if d == 4 {
        '4'
    } else if d == 5 {
        '5'
    } else if d == 6 {
        '6'
    } else if d == 7 {
        '7'
    } else if d == 8 {
        '8'
    } else {
        '9'
    }
}

/// Decimal digits of a non-negative integer, most significant first.
pub open spec fn spec_dec_nat(n: int) -> Seq<char>
    recommends
        n >= 0,
    decreases n,
{
    if n < 10 {
        seq![spec_digit_char(n)]
    } else {
        spec_dec_nat(n / 10).push(spec_digit_char(n % 10))
    }
}

/// Decimal text of an integer, with a leading minus sign when negative.
pub open spec fn spec_dec_int(n: int) -> Seq<char> {
    if n < 0 {
        seq!['-'] + spec_dec_nat(-n)
    } else {
        spec_dec_nat(n)
    }
}

/// The ISO-8601 text this library writes for a duration: the month count
/// as a months field and the seconds as a seconds field.
pub open spec fn spec_iso8601(months: int, seconds: int) -> Seq<char> {
    seq!['P'] + spec_dec_int(months) + seq!['M', 'T'] + spec_dec_int(seconds) + seq!['S']
}

proof fn lemma_find_idx_at(s: Seq<char>, t: char, i: int)
    requires
        0 <= i < s.len(),
        s[i] == t,
        forall|j: int| 0 <= j < i ==> s[j] != t,
    ensures
        find_idx(s, t) == i,
    decreases s.len(),
{
    if i == 0 {
    } else {
        assert(forall|j: int| 0 <= j < i - 1 ==> s.skip(1)[j] != t);
        lemma_find_idx_at(s.skip(1), t, i - 1);
    }
}

proof fn lemma_find_idx_absent(s: Seq<char>, t: char)
    requires
        forall|j: int| 0 <= j < s.len() ==> s[j] != t,
    ensures
        find_idx(s, t) == -1,
    decreases s.len(),
{
    if s.len() > 0 {
        assert(forall|j: int| 0 <= j < s.skip(1).len() ==> s.skip(1)[j] != t);
        lemma_find_idx_absent(s.skip(1), t);
    }
}

proof fn lemma_digits_val_snoc(s: Seq<char>, c: char)
    ensures
        digits_val(s.push(c)) == 10 * digits_val(s) + digit_val(c),
{
    assert(s.push(c).drop_last() =~= s);
    assert(s.push(c).last() == c);
}

proof fn lemma_digits_val_grows(s: Seq<char>, i: int)
    requires
        all_digits(s),
        0 <= i <= s.len(),
    ensures
        digits_val(s) >= digits_val(s.take(i)),
        digits_val(s) >= 0,
    decreases s.len() - i,
{
    if i == s.len() {
        assert(s.take(i) =~= s);
        lemma_digits_val_nonneg(s);
    } else {
        assert(s.take(i + 1) =~= s.take(i).push(s[i]));
        lemma_digits_val_snoc(s.take(i), s[i]);
        lemma_digits_val_nonneg(s.take(i));
        lemma_digits_val_grows(s, i + 1);
    }
}

proof fn lemma_digits_val_nonneg(s: Seq<char>)
    requires
        all_digits(s),
    ensures
        digits_val(s) >= 0,
    decreases s.len(),
{
    if s.len() > 0 {
        assert(all_digits(s.drop_last()));
        lemma_digits_val_nonneg(s.drop_last());
    }
}

/// Reads a decimal integer with optional sign, exactly as the duration
/// grammar demands: nothing on a malformed string or a value outside the
/// 32-bit signed range.
fn parse_i32(s: &str) -> (r: Option<i32>)
    ensures
        match r {
            Some(v) => parses_to_i32(s@) && v as int == int_str_val(s@),
            None => !parses_to_i32(s@),
        },
{
    let len = s.unicode_len();
    if len == 0 {
        return None;
    }
    let first = s.get_char(0);
    let (start, negative): (usize, bool) = if first == '-' {
        (1, true)
    } else if first == '+' {
        (1, false)
    } else {
        (0, false)
    };
    if start >= len {
        return None;
    }
    let ghost body = s@.skip(start as int);
    let mut acc: u64 = 0;
    let mut i: usize = start;
    while i < len
        invariant
            start <= i <= len,
            len == s@.len(),
            start <= 1,
            s@.len() > 0,
            start == 1 <==> (s@[0] == '+' || s@[0] == '-'),
            body == s@.skip(start as int),
            all_digits(body.take(i - start)),
            acc == digits_val(body.take(i - start)),
            acc <= 0x8000_0000u64,
        decreases len - i,
    {
        let c = s.get_char(i);
        proof {
            assert(body[i - start] == s@[i as int]);
        }
        if !(c >= '0' && c <= '9') {
            proof {
                assert(!all_digits(body));
                if start == 0 {
                    assert(body =~= s@);
                }
            }
            return None;
        }
        let d: u64 = (c as u32 - '0' as u32) as u64;
        proof {
            assert(body.take(i + 1 - start) =~= body.take(i - start).push(body[i - start]));
            lemma_digits_val_snoc(body.take(i - start), body[i - start]);
        }
        acc = acc * 10 + d;
        i = i + 1;
        if acc > 0x8000_0000u64 {
            proof {
                if all_digits(body) {
                    lemma_digits_val_grows(body, i - start);
                }
                if start == 0 {
                    assert(body =~= s@);
                }
            }
            return None;
        }
    }
    assert(body =~= body.take(len - start));
    if negative {
        proof {
            assert(s@[0] == '-');
            assert(s@.skip(1) == body);
        }
        Some((-(acc as i64)) as i32)
    } else {
        if acc > 0x7FFF_FFFFu64 {
            proof {
                if s@[0] != '+' {
                    assert(body =~= s@);
                }
            }
            return None;
        }
        proof {
            if s@[0] == '+' {
                assert(s@.skip(1) == body);
            } else {
                assert(s@.skip(0) == body);
                assert(body =~= s@);
            }
        }
        Some(acc as i32)
    }
}

/// Position of the first occurrence of a character in a string.
fn find_char(s: &str, t: char) -> (r: Option<usize>)
    ensures
        match r {
            Some(i) => i < s@.len() && find_idx(s@, t) == i as int,
            None => find_idx(s@, t) == -1,
        },
{
    let len = s.unicode_len();
    let mut i: usize = 0;
    while i < len
        invariant
            0 <= i <= len,
            len == s@.len(),
            forall|j: int| 0 <= j < i ==> s@[j] != t,
        decreases len - i,
    {
        if s.get_char(i) == t {
            proof {
                lemma_find_idx_at(s@, t, i as int);
            }
            return Some(i);
        }
        i = i + 1;
    }
    proof {
        lemma_find_idx_absent(s@, t);
    }
    None
}

fn parse_error() -> (r: Error)
    ensures
        r is Parse,
{
    Error::Parse("invalid duration".to_owned())
}

/// Splits one field off a duration segment at the first occurrence of the
/// terminator, reading the text before it as a 32-bit integer; an absent
/// terminator leaves the input untouched and yields zero.
pub fn get_terminated<'a>(input: &'a str, terminator: char) -> (r: Result<(&'a str, i32), Error>)
    ensures
        match r {
            Ok(p) => spec_get_terminated(input@, terminator) == Some((p.0@, p.1 as int)),
            Err(_) => spec_get_terminated(input@, terminator) is None,
        },
{
    match find_char(input, terminator) {
        Some(i) => {
            let int_string = input.substring_char(0, i);
            assert(int_string@ == input@.take(i as int));
            match parse_i32(int_string) {
                Some(v) => {
                    let ulen = input.unicode_len();
                    let remainder = input.substring_char(i + 1, ulen);
                    assert(remainder@ == input@.skip(i + 1));
                    Ok((remainder, v))
                },
                None => Err(parse_error()),
            }
        },
        None => Ok((input, 0)),
    }
}

/// Reads the date part of a duration: years, months and days, each an
/// optional terminated field, with nothing left over.
pub fn parse_datespec(datespec: &str) -> (r: Result<(i32, i32, i32), Error>)
    ensures
        match r {
            Ok(v) => spec_parse_fields(datespec@, 'Y', 'M', 'D') == Some(
                (v.0 as int, v.1 as int, v.2 as int),
            ),
            Err(_) => spec_parse_fields(datespec@, 'Y', 'M', 'D') is None,
        },
{
    let (remainder, years) = get_terminated(datespec, 'Y')?;
    let (remainder, months) = get_terminated(remainder, 'M')?;
    let (remainder, days) = get_terminated(remainder, 'D')?;
    if !remainder.is_empty() {
        Err(parse_error())
    } else {
        Ok((years, months, days))
    }
}

/// Reads the time part of a duration: hours, minutes and seconds, each an
/// optional terminated field, with nothing left over.
pub fn parse_timespec(timespec: &str) -> (r: Result<(i32, i32, i32), Error>)
    ensures
        match r {
            Ok(v) => spec_parse_fields(timespec@, 'H', 'M', 'S') == Some(
                (v.0 as int, v.1 as int, v.2 as int),
            ),
            Err(_) => spec_parse_fields(timespec@, 'H', 'M', 'S') is None,
        },
{
    let (remainder, hours) = get_terminated(timespec, 'H')?;
    let (remainder, mins) = get_terminated(remainder, 'M')?;
    let (remainder, secs) = get_terminated(remainder, 'S')?;
    if !remainder.is_empty() {
        Err(parse_error())
    } else {
        Ok((hours, mins, secs))
    }
}

/// Combines a day/hour/minute/second reading into seconds.
pub fn dhms_to_duration(days: i32, hours: i32, minutes: i32, seconds: i32) -> (r: i64)
    ensures
        r == spec_dhms_seconds(days as int, hours as int, minutes as int, seconds as int),
{
    ((days as i64 * 24 + hours as i64) * 60 + minutes as i64) * 60 + seconds as i64
}

/// Parses an ISO-8601 duration `P[nY][nM][nD][T[nH][nM][nS]]`.
///
/// Absent fields read as zero, so `P` alone is the zero duration. Errs on
/// a missing `P` prefix, malformed or out-of-range fields, text left over
/// after a field, or a combined month count outside the 32-bit range.
pub fn parse_duration(input: &str) -> (r: Result<RelativeDuration, Error>)
    ensures
        match r {
            Ok(d) => spec_parse_duration(input@) == Some((d.months as int, d.seconds as int)),
            Err(_) => spec_parse_duration(input@) is None,
        },
{
    let len = input.unicode_len();
    if len == 0 || input.get_char(0) != 'P' {
        return Err(parse_error());
    }
    let rest = input.substring_char(1, len);
    assert(rest@ == input@.skip(1));
    let (datespec, timespec): (&str, &str) = match find_char(rest, 'T') {
        Some(i) => {
            let rlen = rest.unicode_len();
            let d = rest.substring_char(0, i);
            let t = rest.substring_char(i + 1, rlen);
            assert(d@ == rest@.take(i as int));
            assert(t@ == rest@.skip(i + 1));
            (d, t)
        },
        None => {
            proof {
                reveal_strlit("");
                assert(""@ =~= Seq::<char>::empty());
            }
            (rest, "")
        },
    };
    let (years, months, days) = parse_datespec(datespec)?;
    let (hours, mins, secs) = parse_timespec(timespec)?;
    let months_total = years as i64 * 12 + months as i64;
    if months_total < i32::MIN as i64 || months_total > i32::MAX as i64 {
        return Err(parse_error());
    }
    Ok(RelativeDuration {
        months: months_total as i32,
        seconds: dhms_to_duration(days, hours, mins, secs),
    })
}

fn digit_str(d: u64) -> (r: &'static str)
    requires
        d < 10,
    ensures
        r@ =~= seq![spec_digit_char(d as int)],
{
    proof {
        reveal_strlit("0");
        reveal_strlit("1");
        reveal_strlit("2");
        reveal_strlit("3");
        reveal_strlit("4");
        reveal_strlit("5");
        reveal_strlit("6");
        reveal_strlit("7");
        reveal_strlit("8");
        reveal_strlit("9");
    }
    match d {
        0 => "0",
        1 => "1",
        2 => "2",
        3 => "3",
        4 => "4",
        5 => "5",
        6 => "6",
        7 => "7",
        8 => "8",
        _ => "9",
    }
}

fn push_dec_u64(out: &mut String, n: u64)
    ensures
        final(out)@ == old(out)@ + spec_dec_nat(n as int),
    decreases n,
{
    if n < 10 {
        out.append(digit_str(n));
        assert(final(out)@ =~= old(out)@ + spec_dec_nat(n as int));
    } else {
        push_dec_u64(out, n / 10);
        out.append(digit_str(n % 10));
        assert(final(out)@ =~= old(out)@ + spec_dec_nat(n as int));
    }
}

fn push_dec_i64(out: &mut String, n: i64)
    ensures
        final(out)@ == old(out)@ + spec_dec_int(n as int),
{
    if n < 0 {
        proof {
            reveal_strlit("-");
        }
        out.append("-");
        let m: u64 = ((-(n + 1)) as u64) + 1;
        push_dec_u64(out, m);
        assert(final(out)@ =~= old(out)@ + spec_dec_int(n as int));
    } else {
        push_dec_u64(out, n as u64);
    }
}

impl RelativeDuration {
    /// Writes the duration in ISO-8601 form, the month count as a months
    /// field and the seconds as a seconds field: `P<m>MT<s>S`.
    pub fn to_iso8601(&self) -> (r: String)
        ensures
            r@ == spec_iso8601(self.months as int, self.seconds as int),
    {
        proof {
            reveal_strlit("P");
            reveal_strlit("M");
            reveal_strlit("T");
            reveal_strlit("S");
        }
        let mut out = "P".to_owned();
        push_dec_i64(&mut out, self.months as i64);
        out.append("M");
        out.append("T");
        push_dec_i64(&mut out, self.seconds);
        out.append("S");
        assert(out@ =~= spec_iso8601(self.months as int, self.seconds as int));
        out
    }
}

proof fn lemma_dec_nat_digits(n: int)
    requires
        n >= 0,
    ensures
        spec_dec_nat(n).len() >= 1,
        all_digits(spec_dec_nat(n)),
    decreases n,
{
    if n < 10 {
        assert(is_digit(spec_digit_char(n)));
    } else {
        lemma_dec_nat_digits(n / 10);
        assert(is_digit(spec_digit_char(n % 10)));
        assert(all_digits(spec_dec_nat(n / 10).push(spec_digit_char(n % 10))));
    }
}

proof fn lemma_dec_nat_val(n: int)
    requires
        n >= 0,
    ensures
        digits_val(spec_dec_nat(n)) == n,
    decreases n,
{
    if n < 10 {
        assert(digits_val(seq![spec_digit_char(n)]) == digit_val(spec_digit_char(n))) by {
            let single = seq![spec_digit_char(n)];
            assert(single.drop_last() =~= Seq::<char>::empty());
            assert(digits_val(Seq::<char>::empty()) == 0);
            assert(single.last() == spec_digit_char(n));
            assert(digits_val(single) == 10 * digits_val(single.drop_last()) + digit_val(
                single.last(),
            ));
        }
    } else {
        lemma_dec_nat_val(n / 10);
        lemma_digits_val_snoc(spec_dec_nat(n / 10), spec_digit_char(n % 10));
    }
}

/// The duration grammar reads back exactly the month count and the seconds
/// that `to_iso8601` wrote, whenever both are non-negative. (A seconds
/// component beyond the 32-bit range cannot be read back, since each field
/// of the grammar is a 32-bit integer.)
pub proof fn lemma_iso8601_round_trip(m: int, s: int)
    requires
        0 <= m <= i32::MAX,
        0 <= s <= i32::MAX,
    ensures
        spec_parse_duration(spec_iso8601(m, s)) == Some((m, s)),
{
    let d = spec_dec_nat(m);
    let e = spec_dec_nat(s);
    lemma_dec_nat_digits(m);
    lemma_dec_nat_digits(s);
    lemma_dec_nat_val(m);
    lemma_dec_nat_val(s);
    let full = spec_iso8601(m, s);
    assert(full[0] == 'P');
    let rest = full.skip(1);
    assert(rest =~= d + seq!['M', 'T'] + e + seq!['S']);

    let dlen = d.len() as int;
    let elen = e.len() as int;
    // the first 'T' stands right after the months field and its 'M'
    assert(rest[dlen + 1] == 'T');
    assert(forall|j: int| 0 <= j < dlen + 1 ==> rest[j] != 'T');
    lemma_find_idx_at(rest, 'T', dlen + 1);
    let date = rest.take(dlen + 1);
    let time = rest.skip(dlen + 2);
    assert(date =~= d + seq!['M']);
    assert(time =~= e + seq!['S']);

    // date part: no 'Y', months field closed by 'M', nothing after it
    assert(forall|j: int| 0 <= j < date.len() ==> date[j] != 'Y');
    lemma_find_idx_absent(date, 'Y');
    assert(date[dlen] == 'M');
    assert(forall|j: int| 0 <= j < dlen ==> date[j] != 'M');
    lemma_find_idx_at(date, 'M', dlen);
    assert(date.take(dlen) =~= d);
    assert(valid_int_str(d));
    assert(int_str_val(d) == m);
    let after_m = date.skip(dlen + 1);
    assert(after_m =~= Seq::<char>::empty());
    lemma_find_idx_absent(after_m, 'D');
    assert(spec_parse_fields(date, 'Y', 'M', 'D') == Some((0int, m, 0int)));

    // time part: no 'H' or 'M', seconds field closed by 'S', nothing after
    assert(forall|j: int| 0 <= j < time.len() ==> time[j] != 'H');
    lemma_find_idx_absent(time, 'H');
    assert(forall|j: int| 0 <= j < time.len() ==> time[j] != 'M');
    lemma_find_idx_absent(time, 'M');
    assert(time[elen] == 'S');
    assert(forall|j: int| 0 <= j < elen ==> time[j] != 'S');
    lemma_find_idx_at(time, 'S', elen);
    assert(time.take(elen) =~= e);
    assert(valid_int_str(e));
    assert(int_str_val(e) == s);
    let after_s = time.skip(elen + 1);
    assert(after_s =~= Seq::<char>::empty());
    assert(spec_parse_fields(time, 'H', 'M', 'S') == Some((0int, 0int, s)));

    assert(spec_dhms_seconds(0, 0, 0, s) == s);
}

} // verus!

