//! Instants as the library holds them, the RFC 3339 reader it relies on, and
//! the calendar dates it writes.
use chrono::Datelike;
use vstd::prelude::*;

verus! {

/// An instant: whole seconds since 1970-01-01T00:00:00Z and the nanoseconds
/// past that second (a billion or more only within a leap second).
#[derive(Debug, Clone, Copy, PartialEq, Eq, Structural)]
pub struct Timestamp {
    pub seconds: i64,
    pub nanos: u32,
}

/// The instant chrono's RFC 3339 reader finds in a text, as (seconds,
/// nanoseconds) since the Unix epoch; `None` when the reader refuses the text.
pub uninterp spec fn rfc3339_instant(text: Seq<char>) -> Option<(i64, u32)>;

/// chrono's parse failure; the library only tells it apart from success.
#[verifier::external_type_specification]
#[verifier::external_body]
pub struct ExParseError(chrono::ParseError);

pub open spec fn epoch() -> Timestamp {
    Timestamp { seconds: 0, nanos: 0 }
}

impl Timestamp {
    /// 1970-01-01T00:00:00Z, the value an absent instant takes.
    pub fn epoch() -> (r: Timestamp)
        ensures
            r == epoch(),
    {
        Timestamp { seconds: 0, nanos: 0 }
    }
}

/// Relies on chrono's `DateTime::parse_from_rfc3339`, whose outcome depends
/// on the text alone; the parsed instant is read back in UTC with its
/// `timestamp` and `timestamp_subsec_nanos`.
#[verifier::external_body]
fn parse_rfc3339(text: &str) -> (r: Result<Timestamp, chrono::ParseError>)
    ensures
        match r {
            Ok(t) => rfc3339_instant(text@) == Some((t.seconds, t.nanos)),
            Err(_) => rfc3339_instant(text@) is None,
        },
{
    match chrono::DateTime::parse_from_rfc3339(text) {
        Ok(dt) => Ok(Timestamp { seconds: dt.timestamp(), nanos: dt.timestamp_subsec_nanos() }),
        Err(e) => Err(e),
    }
}

/// The instant an RFC 3339 text denotes.
pub open spec fn instant_of(text: Seq<char>) -> Option<Timestamp> {
    match rfc3339_instant(text) {
        Some((seconds, nanos)) => Some(Timestamp { seconds, nanos }),
        None => None,
    }
}

/// Reads an RFC 3339 text; `None` when it is malformed.
pub fn read_instant(text: &str) -> (r: Option<Timestamp>)
    ensures
        r == instant_of(text@),
{
    match parse_rfc3339(text) {
        Ok(t) => Some(t),
        Err(_) => None,
    }
}

/// The UTC calendar date (year, month, day) chrono gives an instant of
/// (seconds, nanoseconds) since the Unix epoch; `None` when chrono refuses
/// the instant.
pub uninterp spec fn utc_date_of(seconds: i64, nanos: u32) -> Option<(i32, u32, u32)>;

/// Relies on chrono's `DateTime::from_timestamp`, whose outcome depends on
/// the instant alone; the date is read back with `year`, `month` and `day`.
#[verifier::external_body]
fn utc_date(seconds: i64, nanos: u32) -> (r: Option<(i32, u32, u32)>)
    ensures
        r == utc_date_of(seconds, nanos),
{
    match chrono::DateTime::from_timestamp(seconds, nanos) {
        Some(dt) => Some((dt.year(), dt.month(), dt.day())),
        None => None,
    }
}

/// The decimal digit `n`.
pub open spec fn digit_text(n: int) -> Seq<char> {
    if n == 0 {
        "0"@
    } else if n == 1 {
        "1"@
    } else if n == 2 {
        "2"@
    } else if n == 3 {
        "3"@
    } else if n == 4 {
        "4"@
    } else if n == 5 {
        "5"@
    } else if n == 6 {
        "6"@
    } else if n == 7 {
        "7"@
    } else if n == 8 {
        "8"@
    } else {
        "9"@
    }
}

/// The last `width` decimal digits of `n`, most significant first, padded
/// with zeros.
pub open spec fn padded_text(n: nat, width: nat) -> Seq<char>
    decreases width,
{
    if width == 0 {
        Seq::empty()
    } else {
        padded_text(n / 10, (width - 1) as nat) + digit_text((n % 10) as int)
    }
}

/// A calendar date written `YYYY-MM-DD`.
pub open spec fn date_text(year: nat, month: nat, day: nat) -> Seq<char> {
    padded_text(year, 4) + "-"@ + padded_text(month, 2) + "-"@ + padded_text(day, 2)
}

/// The calendar date an instant falls on in UTC, written `YYYY-MM-DD`;
/// `None` when it has no such date or its year is not within 0 to 9999.
pub open spec fn date_text_of(t: Timestamp) -> Option<Seq<char>> {
    match utc_date_of(t.seconds, t.nanos) {
        Some((year, month, day)) => if 0 <= year <= 9999 && month < 100 && day < 100 {
            Some(date_text(year as nat, month as nat, day as nat))
        } else {
            None
        },
        None => None,
    }
}

fn digit(n: u32) -> (r: &'static str)
    requires
        n < 10,
    ensures
        r@ == digit_text(n as int),
{
    if n == 0 {
        "0"
    } else if n == 1 {
        "1"
    } else if n == 2 {
        "2"
    } else if n == 3 {
        "3"
    } else if n == 4 {
        "4"
    } else if n == 5 {
        "5"
    } else if n == 6 {
        "6"
    } else if n == 7 {
        "7"
    } else if n == 8 {
        "8"
    } else {
        "9"
    }
}

fn push_padded(text: &mut String, n: u32, width: u32)
    ensures
        final(text)@ == old(text)@ + padded_text(n as nat, width as nat),
    decreases width,
{
    if width > 0 {
        push_padded(text, n / 10, width - 1);
        text.append(digit(n % 10));
        proof {
            assert(final(text)@ =~= old(text)@ + padded_text(n as nat, width as nat));
        }
    } else {
        assert(padded_text(n as nat, 0) =~= Seq::<char>::empty());
        assert(text@ =~= old(text)@ + padded_text(n as nat, width as nat));
    }
}

/// Writes the UTC calendar date of an instant as `YYYY-MM-DD`.
pub fn write_date(t: Timestamp) -> (r: Option<String>)
    ensures
        match r {
            Some(s) => date_text_of(t) == Some(s@),
            None => date_text_of(t) is None,
        },
{
    match utc_date(t.seconds, t.nanos) {
        Some((year, month, day)) => {
            if 0 <= year && year <= 9999 && month < 100 && day < 100 {
                let mut text = String::new();
                push_padded(&mut text, year as u32, 4);
                text.append("-");
                push_padded(&mut text, month, 2);
                text.append("-");
                push_padded(&mut text, day, 2);
                assert(text@ =~= date_text(year as nat, month as nat, day as nat));
                Some(text)
            } else {
                None
            }
        },
        None => None,
    }
}

/// The value of a decimal digit character.
pub open spec fn digit_of(c: char) -> Option<nat> {
    if 48 <= (c as u32) <= 57 {
        Some(((c as u32) - 48) as nat)
    } else {
        None
    }
}

pub open spec fn is_leap_year(year: nat) -> bool {
    (year % 4 == 0 && year % 100 != 0) || year % 400 == 0
}

pub open spec fn days_in_month(year: nat, month: nat) -> nat {
    if month == 2 {
        if is_leap_year(year) {
            29
        } else {
            28
        }
    } else if month == 4 || month == 6 || month == 9 || month == 11 {
        30
    } else {
        31
    }
}

/// The days of `year` in the months before `month`.
pub open spec fn days_before_month(year: nat, month: nat) -> nat
    decreases month,
{
    if month <= 1 {
        0
    } else {
        days_before_month(year, (month - 1) as nat) + days_in_month(year, (month - 1) as nat)
    }
}

/// The leap years among the years 0 to `year - 1`.
pub open spec fn leap_years_before(year: nat) -> nat
    decreases year,
{
    if year == 0 {
        0
    } else {
        leap_years_before((year - 1) as nat) + if is_leap_year((year - 1) as nat) {
            1nat
        } else {
            0nat
        }
    }
}

/// The days from 1970-01-01 to a date of the proleptic Gregorian calendar.
pub open spec fn days_from_epoch(year: nat, month: nat, day: nat) -> int {
    365 * year + leap_years_before(year) + days_before_month(year, month) + day - 1 - 719528
}

/// The date a `YYYY-MM-DD` text names, when it is one of the calendar.
pub open spec fn calendar_date_of(t: Seq<char>) -> Option<(nat, nat, nat)> {
    if t.len() == 10 && t[4] == '-' && t[7] == '-' && digit_of(t[0]) is Some && digit_of(t[1]) is Some
        && digit_of(t[2]) is Some && digit_of(t[3]) is Some && digit_of(t[5]) is Some && digit_of(
        t[6],
    ) is Some && digit_of(t[8]) is Some && digit_of(t[9]) is Some {
        let year = digit_of(t[0])->0 * 1000 + digit_of(t[1])->0 * 100 + digit_of(t[2])->0 * 10
            + digit_of(t[3])->0;
        let month = digit_of(t[5])->0 * 10 + digit_of(t[6])->0;
        let day = digit_of(t[8])->0 * 10 + digit_of(t[9])->0;
        if 1 <= month <= 12 && 1 <= day <= days_in_month(year, month) {
            Some((year, month, day))
        } else {
            None
        }
    } else {
        None
    }
}

/// Midnight UTC at the start of the date a `YYYY-MM-DD` text names.
pub open spec fn calendar_instant(t: Seq<char>) -> Option<Timestamp> {
    match calendar_date_of(t) {
        Some((year, month, day)) => Some(
            Timestamp { seconds: (days_from_epoch(year, month, day) * 86400) as i64, nanos: 0 },
        ),
        None => None,
    }
}

fn digit_at(text: &str, i: usize) -> (r: Option<u32>)
    requires
        i < text@.len(),
    ensures
        match r {
            Some(v) => digit_of(text@[i as int]) == Some(v as nat) && v < 10,
            None => digit_of(text@[i as int]) is None,
        },
{
    let c = text.get_char(i);
    let v = c as u32;
    if 48 <= v && v <= 57 {
        Some(v - 48)
    } else {
        None
    }
}

fn is_leap(year: u32) -> (r: bool)
    ensures
        r == is_leap_year(year as nat),
{
    (year % 4 == 0 && year % 100 != 0) || year % 400 == 0
}

fn month_length(year: u32, month: u32) -> (r: u32)
    ensures
        r == days_in_month(year as nat, month as nat),
        r <= 31,
{
    if month == 2 {
        if is_leap(year) {
            29
        } else {
            28
        }
    } else if month == 4 || month == 6 || month == 9 || month == 11 {
        30
    } else {
        31
    }
}

/// Seconds since the Unix epoch at midnight UTC starting a calendar date.
fn midnight_seconds(year: u32, month: u32, day: u32) -> (r: i64)
    requires
        year <= 9999,
        1 <= month <= 12,
        1 <= day <= 31,
    ensures
        r == days_from_epoch(year as nat, month as nat, day as nat) * 86400,
{
    let mut leaps: u32 = 0;
    let mut y: u32 = 0;
    while y < year
        invariant
            y <= year <= 9999,
            leaps == leap_years_before(y as nat),
            leaps <= y,
        decreases year - y,
    {
        if is_leap(y) {
            leaps = leaps + 1;
        }
        y = y + 1;
    }
    let mut before: u32 = 0;
    let mut m: u32 = 1;
    while m < month
        invariant
            1 <= m <= month <= 12,
            before == days_before_month(year as nat, m as nat),
            before <= 31 * (m - 1),
        decreases month - m,
    {
        before = before + month_length(year, m);
        m = m + 1;
    }
    let days: i64 = 365 * (year as i64) + (leaps as i64) + (before as i64) + (day as i64) - 1
        - 719528;
    days * 86400
}

/// Reads a `YYYY-MM-DD` calendar date as midnight UTC at its start; `None`
/// when the text is not a date of the calendar in that form.
pub fn read_calendar_date(text: &str) -> (r: Option<Timestamp>)
    ensures
        r == calendar_instant(text@),
{
    if text.unicode_len() != 10 {
        return None;
    }
    let dash1 = text.get_char(4);
    let dash2 = text.get_char(7);
    if dash1 != '-' || dash2 != '-' {
        return None;
    }
    let (d0, d1, d2, d3, d5, d6, d8, d9) = match (
        digit_at(text, 0),
        digit_at(text, 1),
        digit_at(text, 2),
        digit_at(text, 3),
        digit_at(text, 5),
        digit_at(text, 6),
        digit_at(text, 8),
        digit_at(text, 9),
    ) {
        (Some(a), Some(b), Some(c), Some(d), Some(e), Some(f), Some(g), Some(h)) => (
            a,
            b,
            c,
            d,
            e,
            f,
            g,
            h,
        ),
        _ => return None,
    };
    let year = d0 * 1000 + d1 * 100 + d2 * 10 + d3;
    let month = d5 * 10 + d6;
    let day = d8 * 10 + d9;
    if month < 1 || month > 12 || day < 1 || day > month_length(year, month) {
        return None;
    }
    Some(Timestamp { seconds: midnight_seconds(year, month, day), nanos: 0 })
}

proof fn lemma_digit_reads_back(n: int)
    requires
        0 <= n < 10,
    ensures
        digit_text(n).len() == 1,
        digit_of(digit_text(n)[0]) == Some(n as nat),
{
    reveal_strlit("0");
    reveal_strlit("1");
    reveal_strlit("2");
    reveal_strlit("3");
    reveal_strlit("4");
    reveal_strlit("5");
    reveal_strlit("6");
    reveal_strlit("7");
    reveal_strlit("8");
    reveal_strlit("9");
}

/// Every calendar date the library writes reads back as the same date: a due
/// date sent to the backend is read the same way when the record returns.
pub proof fn lemma_written_dates_read_back(year: nat, month: nat, day: nat)
    requires
        year <= 9999,
        1 <= month <= 12,
        1 <= day <= days_in_month(year, month),
    ensures
        calendar_date_of(date_text(year, month, day)) == Some((year, month, day)),
{
    reveal_strlit("-");
    let y3 = year % 10;
    let y2 = (year / 10) % 10;
    let y1 = (year / 10 / 10) % 10;
    let y0 = (year / 10 / 10 / 10) % 10;
    let m1 = month % 10;
    let m0 = (month / 10) % 10;
    let d1 = day % 10;
    let d0 = (day / 10) % 10;
    lemma_digit_reads_back(y0 as int);
    lemma_digit_reads_back(y1 as int);
    lemma_digit_reads_back(y2 as int);
    lemma_digit_reads_back(y3 as int);
    lemma_digit_reads_back(m0 as int);
    lemma_digit_reads_back(m1 as int);
    lemma_digit_reads_back(d0 as int);
    lemma_digit_reads_back(d1 as int);
    let ty = padded_text(year, 4);
    assert(padded_text(year / 10 / 10 / 10 / 10, 0) =~= Seq::<char>::empty());
    assert(padded_text(year / 10 / 10 / 10, 1) == padded_text(year / 10 / 10 / 10 / 10, 0)
        + digit_text(y0 as int));
    assert(padded_text(year / 10 / 10, 2) == padded_text(year / 10 / 10 / 10, 1) + digit_text(
        y1 as int,
    ));
    assert(padded_text(year / 10, 3) == padded_text(year / 10 / 10, 2) + digit_text(y2 as int));
    assert(ty == padded_text(year / 10, 3) + digit_text(y3 as int));
    assert(ty =~= seq![
        digit_text(y0 as int)[0],
        digit_text(y1 as int)[0],
        digit_text(y2 as int)[0],
        digit_text(y3 as int)[0],
    ]);
    let tm = padded_text(month, 2);
    assert(padded_text(month / 10 / 10, 0) =~= Seq::<char>::empty());
    assert(padded_text(month / 10, 1) == padded_text(month / 10 / 10, 0) + digit_text(m0 as int));
    assert(tm == padded_text(month / 10, 1) + digit_text(m1 as int));
    assert(tm =~= seq![digit_text(m0 as int)[0], digit_text(m1 as int)[0]]);
    let td = padded_text(day, 2);
    assert(padded_text(day / 10 / 10, 0) =~= Seq::<char>::empty());
    assert(padded_text(day / 10, 1) == padded_text(day / 10 / 10, 0) + digit_text(d0 as int));
    assert(td == padded_text(day / 10, 1) + digit_text(d1 as int));
    assert(td =~= seq![digit_text(d0 as int)[0], digit_text(d1 as int)[0]]);
    let t = date_text(year, month, day);
    assert(t =~= seq![
        digit_text(y0 as int)[0],
        digit_text(y1 as int)[0],
        digit_text(y2 as int)[0],
        digit_text(y3 as int)[0],
        '-',
        digit_text(m0 as int)[0],
        digit_text(m1 as int)[0],
        '-',
        digit_text(d0 as int)[0],
        digit_text(d1 as int)[0],
    ]);
    assert(y0 * 1000 + y1 * 100 + y2 * 10 + y3 == year);
    assert(m0 * 10 + m1 == month);
    assert(d0 * 10 + d1 == day);
}

} // verus!
