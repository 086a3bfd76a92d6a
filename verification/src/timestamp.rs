//! Calendar timestamps with one-second resolution.
//!
//! A timestamp is a date of the proleptic Gregorian calendar and a time of
//! day, written `YYYY-MM-DD HH:MM:SS`. The current time is never read here:
//! callers pass it in. Every timestamp that executable code holds names a
//! real date and time: the only way to make one is [`Timestamp::new`].

use vstd::prelude::*;
use vstd::string::*;
use crate::text::{digit_text, digit_str};

verus! {

/// A date and a time of day.
#[derive(Clone, Copy, Debug, PartialEq, Eq, Structural)]
pub struct Timestamp {
    year: u16,
    month: u8,
    day: u8,
    hour: u8,
    minute: u8,
    second: u8,
}

/// The number of seconds of a day.
pub const SECONDS_PER_DAY: i64 = 86400;

/// Whether `year` has a 29 February.
pub open spec fn is_leap_year(year: int) -> bool {
    year % 4 == 0 && (year % 100 != 0 || year % 400 == 0)
}

/// The number of days of `month` in `year`; 0 for a month outside `1..=12`.
pub open spec fn days_in_month(year: int, month: int) -> int {
    if month == 2 {
        if is_leap_year(year) {
            29
        } else {
            28
        }
    } else if month == 4 || month == 6 || month == 9 || month == 11 {
        30
    } else if 1 <= month <= 12 {
        31
    } else {
        0
    }
}

/// The days of `year` that lie before the first of `month`.
pub open spec fn days_before_month(year: int, month: int) -> int
    decreases month,
{
    if month <= 1 {
        0
    } else {
        days_before_month(year, month - 1) + days_in_month(year, month - 1)
    }
}

/// The number of leap years among the years `0..year`.
pub open spec fn leap_years_before(year: int) -> int {
    (year + 3) / 4 - (year + 99) / 100 + (year + 399) / 400
}

/// The days that lie before 1 January of `year`, counted from 1 January of year 0.
pub open spec fn days_before_year(year: int) -> int {
    365 * year + leap_years_before(year)
}

/// The number of a day, counted from 0000-01-01 as day 0.
pub open spec fn day_number(year: int, month: int, day: int) -> int {
    days_before_year(year) + days_before_month(year, month) + day - 1
}

/// Two decimal digits, zero padded.
pub open spec fn two_digits(n: int) -> Seq<char> {
    digit_text(n / 10) + digit_text(n % 10)
}

/// Four decimal digits, zero padded.
pub open spec fn four_digits(n: int) -> Seq<char> {
    two_digits(n / 100) + two_digits(n % 100)
}

/// The value of a decimal digit character, if it is one.
pub open spec fn digit_value(c: char) -> Option<int> {
    if '0' <= c <= '9' {
        Some(c as int - '0' as int)
    } else {
        None
    }
}

/// The number written by the `len` digit characters of `s` that start at `from`.
pub open spec fn digits_value(s: Seq<char>, from: int, len: nat) -> Option<int>
    decreases len,
{
    if len == 0 {
        Some(0int)
    } else {
        match (digits_value(s, from, (len - 1) as nat), digit_value(s[from + len - 1])) {
            (Some(high), Some(low)) => Some(high * 10 + low),
            _ => None,
        }
    }
}

/// Whether six numbers name a real calendar date and time of day, year at most 9999.
pub open spec fn valid_fields(
    year: int,
    month: int,
    day: int,
    hour: int,
    minute: int,
    second: int,
) -> bool {
    &&& 0 <= year <= 9999
    &&& 1 <= month <= 12
    &&& 1 <= day <= days_in_month(year, month)
    &&& 0 <= hour < 24
    &&& 0 <= minute < 60
    &&& 0 <= second < 60
}

impl Timestamp {
    /// The year, `0..=9999` in a valid timestamp.
    pub closed spec fn spec_year(self) -> int {
        self.year as int
    }

    /// The month, `1..=12` in a valid timestamp.
    pub closed spec fn spec_month(self) -> int {
        self.month as int
    }

    /// The day of the month, counted from 1.
    pub closed spec fn spec_day(self) -> int {
        self.day as int
    }

    /// The hour, `0..=23` in a valid timestamp.
    pub closed spec fn spec_hour(self) -> int {
        self.hour as int
    }

    /// The minute, `0..=59` in a valid timestamp.
    pub closed spec fn spec_minute(self) -> int {
        self.minute as int
    }

    /// The second, `0..=59` in a valid timestamp.
    pub closed spec fn spec_second(self) -> int {
        self.second as int
    }

    /// The timestamp with the given fields.
    pub closed spec fn of(year: int, month: int, day: int, hour: int, minute: int, second: int)
        -> Timestamp {
        Timestamp {
            year: year as u16,
            month: month as u8,
            day: day as u8,
            hour: hour as u8,
            minute: minute as u8,
            second: second as u8,
        }
    }

    /// A real calendar date with a real time of day, year at most 9999.
    pub open spec fn valid(self) -> bool {
        valid_fields(
            self.spec_year(),
            self.spec_month(),
            self.spec_day(),
            self.spec_hour(),
            self.spec_minute(),
            self.spec_second(),
        )
    }

    #[verifier::type_invariant]
    closed spec fn well_formed(self) -> bool {
        self.valid()
    }

    /// The day this timestamp falls on, as a day number.
    pub open spec fn day_index(self) -> int {
        day_number(self.spec_year(), self.spec_month(), self.spec_day())
    }

    /// Seconds elapsed since 0000-01-01 00:00:00.
    pub open spec fn instant(self) -> int {
        self.day_index() * 86400 + self.spec_hour() * 3600 + self.spec_minute() * 60
            + self.spec_second()
    }

    /// Both timestamps fall on the same calendar day.
    pub open spec fn same_day(self, other: Timestamp) -> bool {
        self.spec_year() == other.spec_year() && self.spec_month() == other.spec_month()
            && self.spec_day() == other.spec_day()
    }

    /// Both timestamps fall in the same calendar month of the same year.
    pub open spec fn same_month(self, other: Timestamp) -> bool {
        self.spec_year() == other.spec_year() && self.spec_month() == other.spec_month()
    }

    /// `self` is not later than `other`.
    pub open spec fn not_after(self, other: Timestamp) -> bool {
        self.instant() <= other.instant()
    }

    /// The text form `YYYY-MM-DD HH:MM:SS`.
    pub open spec fn text(self) -> Seq<char> {
        four_digits(self.spec_year()) + "-"@ + two_digits(self.spec_month()) + "-"@ + two_digits(
            self.spec_day(),
        ) + " "@ + two_digits(self.spec_hour()) + ":"@ + two_digits(self.spec_minute()) + ":"@
            + two_digits(self.spec_second())
    }

    /// The timestamp that `s` writes, if `s` has the text form of a valid one.
    pub open spec fn from_text(s: Seq<char>) -> Option<Timestamp> {
        if s.len() == 19 && s[4] == '-' && s[7] == '-' && s[10] == ' ' && s[13] == ':' && s[16]
            == ':' {
            match (
                digits_value(s, 0, 4),
                digits_value(s, 5, 2),
                digits_value(s, 8, 2),
                digits_value(s, 11, 2),
                digits_value(s, 14, 2),
                digits_value(s, 17, 2),
            ) {
                (Some(year), Some(month), Some(day), Some(hour), Some(minute), Some(second)) => {
                    if valid_fields(year, month, day, hour, minute, second) {
                        Some(Timestamp::of(year, month, day, hour, minute, second))
                    } else {
                        None
                    }
                },
                _ => None,
            }
        } else {
            None
        }
    }

    /// The fields of `Timestamp::of` read back, and two timestamps with the
    /// same fields are the same.
    pub broadcast proof fn lemma_fields(
        year: int,
        month: int,
        day: int,
        hour: int,
        minute: int,
        second: int,
    )
        requires
            valid_fields(year, month, day, hour, minute, second),
        ensures
            ({
                let t = #[trigger] Timestamp::of(year, month, day, hour, minute, second);
                &&& t.spec_year() == year
                &&& t.spec_month() == month
                &&& t.spec_day() == day
                &&& t.spec_hour() == hour
                &&& t.spec_minute() == minute
                &&& t.spec_second() == second
                &&& t.valid()
            }),
    {
    }

    /// A timestamp is determined by its six fields.
    pub proof fn lemma_determined(self)
        ensures
            self == Timestamp::of(
                self.spec_year(),
                self.spec_month(),
                self.spec_day(),
                self.spec_hour(),
                self.spec_minute(),
                self.spec_second(),
            ),
    {
    }
}

/// Whether `year` has a 29 February.
pub fn leap_year(year: u16) -> (b: bool)
    ensures
        b == is_leap_year(year as int),
{
    year % 4 == 0 && (year % 100 != 0 || year % 400 == 0)
}

/// The number of days of a month; 0 for a month outside `1..=12`.
pub fn month_length(year: u16, month: u8) -> (n: u8)
    ensures
        n == days_in_month(year as int, month as int),
{
    if month == 2 {
        if leap_year(year) {
            29
        } else {
            28
        }
    } else if month == 4 || month == 6 || month == 9 || month == 11 {
        30
    } else if 1 <= month && month <= 12 {
        31
    } else {
        0
    }
}

fn month_offset(year: u16, month: u8) -> (n: i64)
    requires
        1 <= month <= 12,
    ensures
        n == days_before_month(year as int, month as int),
        0 <= n <= 341,
{
    let mut total: i64 = 0;
    let mut m: u8 = 1;
    while m < month
        invariant
            1 <= m <= month <= 12,
            total == days_before_month(year as int, m as int),
            0 <= total <= 31 * (m - 1),
        decreases month - m,
    {
        let len: u8 = month_length(year, m);
        total = total + len as i64;
        m = m + 1;
    }
    total
}

impl Timestamp {
    /// Builds a timestamp from its fields, if they name a real date and time.
    pub fn new(year: u16, month: u8, day: u8, hour: u8, minute: u8, second: u8) -> (r: Option<
        Timestamp,
    >)
        ensures
            r == (if valid_fields(
                year as int,
                month as int,
                day as int,
                hour as int,
                minute as int,
                second as int,
            ) {
                Some(
                    Timestamp::of(
                        year as int,
                        month as int,
                        day as int,
                        hour as int,
                        minute as int,
                        second as int,
                    ),
                )
            } else {
                None
            }),
    {
        if year <= 9999 && 1 <= month && month <= 12 && 1 <= day && day <= month_length(
            year,
            month,
        ) && hour < 24 && minute < 60 && second < 60 {
            Some(Timestamp { year, month, day, hour, minute, second })
        } else {
            None
        }
    }

    /// The year, `0..=9999`.
    pub fn year(&self) -> (n: u16)
        ensures
            n == self.spec_year(),
            self.valid(),
    {
        proof {
            use_type_invariant(self);
        }
        self.year
    }

    /// The month, `1..=12`.
    pub fn month(&self) -> (n: u8)
        ensures
            n == self.spec_month(),
            self.valid(),
    {
        proof {
            use_type_invariant(self);
        }
        self.month
    }

    /// The day of the month, from 1.
    pub fn day(&self) -> (n: u8)
        ensures
            n == self.spec_day(),
            self.valid(),
    {
        proof {
            use_type_invariant(self);
        }
        self.day
    }

    /// The hour, `0..=23`.
    pub fn hour(&self) -> (n: u8)
        ensures
            n == self.spec_hour(),
            self.valid(),
    {
        proof {
            use_type_invariant(self);
        }
        self.hour
    }

    /// The minute, `0..=59`.
    pub fn minute(&self) -> (n: u8)
        ensures
            n == self.spec_minute(),
            self.valid(),
    {
        proof {
            use_type_invariant(self);
        }
        self.minute
    }

    /// The second, `0..=59`.
    pub fn second(&self) -> (n: u8)
        ensures
            n == self.spec_second(),
            self.valid(),
    {
        proof {
            use_type_invariant(self);
        }
        self.second
    }

    /// The number of the day, counted from 0000-01-01 as day 0.
    pub fn day_of_era(&self) -> (n: i64)
        ensures
            n == self.day_index(),
            0 <= n < 3_700_000,
    {
        proof {
            use_type_invariant(self);
        }
        let y: i64 = self.year as i64;
        let leaps: i64 = (y + 3) / 4 - (y + 99) / 100 + (y + 399) / 400;
        365 * y + leaps + month_offset(self.year, self.month) + self.day as i64 - 1
    }

    /// Seconds elapsed since 0000-01-01 00:00:00.
    pub fn seconds(&self) -> (n: i64)
        ensures
            n == self.instant(),
            0 <= n < 320_000_000_000,
    {
        proof {
            use_type_invariant(self);
        }
        self.day_of_era() * SECONDS_PER_DAY + self.hour as i64 * 3600 + self.minute as i64 * 60
            + self.second as i64
    }

    /// Whether both fall on the same calendar day.
    pub fn on_same_day(&self, other: &Timestamp) -> (b: bool)
        ensures
            b == self.same_day(*other),
    {
        self.year == other.year && self.month == other.month && self.day == other.day
    }

    /// Whether both fall in the same month of the same year.
    pub fn in_same_month(&self, other: &Timestamp) -> (b: bool)
        ensures
            b == self.same_month(*other),
    {
        self.year == other.year && self.month == other.month
    }
}

fn two_digit_string(n: u8) -> (s: String)
    ensures
        s@ == two_digits(n as int),
{
    String::from_str(digit_str((n / 10) as u128)).concat(digit_str((n % 10) as u128))
}

fn four_digit_string(n: u16) -> (s: String)
    ensures
        s@ == four_digits(n as int),
{
    let high: u16 = n / 100;
    let low: u16 = n % 100;
    let s: String = String::from_str(digit_str((high / 10) as u128)).concat(
        digit_str((high % 10) as u128),
    ).concat(digit_str((low / 10) as u128)).concat(digit_str((low % 10) as u128));
    assert(s@ =~= four_digits(n as int));
    s
}

/// Reads `len` decimal digits of `s` from position `from`.
fn read_digits(s: &str, from: usize, len: usize) -> (r: Option<u32>)
    requires
        from + len <= s@.len(),
        from <= 32,
        len <= 4,
    ensures
        match r {
            Some(v) => digits_value(s@, from as int, len as nat) == Some(v as int) && v < 10000
                && (len <= 2 ==> v < 100),
            None => digits_value(s@, from as int, len as nat) is None,
        },
{
    let mut value: u32 = 0;
    let mut ok: bool = true;
    let mut k: usize = 0;
    let ghost mut bound: int = 1;
    while k < len
        invariant
            k <= len <= 4,
            from + len <= s@.len(),
            from <= 32,
            ok ==> digits_value(s@, from as int, k as nat) == Some(value as int),
            !ok ==> digits_value(s@, from as int, k as nat) is None,
            bound == (if k == 0 {
                1int
            } else if k == 1 {
                10int
            } else if k == 2 {
                100int
            } else if k == 3 {
                1000int
            } else {
                10000int
            }),
            value < bound,
        decreases len - k,
    {
        let c: char = s.get_char(from + k);
        if ok && '0' <= c && c <= '9' {
            value = value * 10 + (c as u32 - '0' as u32);
        } else {
            ok = false;
        }
        k = k + 1;
        proof {
            bound = bound * 10;
        }
    }
    if ok {
        Some(value)
    } else {
        None
    }
}

impl Timestamp {
    /// Writes the timestamp as `YYYY-MM-DD HH:MM:SS`.
    pub fn render(&self) -> (s: String)
        ensures
            s@ == self.text(),
    {
        proof {
            use_type_invariant(self);
        }
        let s: String = four_digit_string(self.year).concat("-").concat(
            two_digit_string(self.month).as_str(),
        ).concat("-").concat(two_digit_string(self.day).as_str()).concat(" ").concat(
            two_digit_string(self.hour).as_str(),
        ).concat(":").concat(two_digit_string(self.minute).as_str()).concat(":").concat(
            two_digit_string(self.second).as_str(),
        );
        assert(s@ =~= self.text());
        s
    }

    /// Reads a timestamp written as `YYYY-MM-DD HH:MM:SS`.
    pub fn parse(s: &str) -> (r: Option<Timestamp>)
        ensures
            r == Timestamp::from_text(s@),
    {
        if s.unicode_len() != 19 {
            return None;
        }
        if s.get_char(4) != '-' || s.get_char(7) != '-' || s.get_char(10) != ' ' || s.get_char(13)
            != ':' || s.get_char(16) != ':' {
            return None;
        }
        let year: Option<u32> = read_digits(s, 0, 4);
        let month: Option<u32> = read_digits(s, 5, 2);
        let day: Option<u32> = read_digits(s, 8, 2);
        let hour: Option<u32> = read_digits(s, 11, 2);
        let minute: Option<u32> = read_digits(s, 14, 2);
        let second: Option<u32> = read_digits(s, 17, 2);
        match (year, month, day, hour, minute, second) {
            (Some(y), Some(mo), Some(d), Some(h), Some(mi), Some(se)) => {
                if mo < 100 && d < 100 && h < 100 && mi < 100 && se < 100 {
                    Timestamp::new(y as u16, mo as u8, d as u8, h as u8, mi as u8, se as u8)
                } else {
                    None
                }
            },
            _ => None,
        }
    }
}

/// Day numbers follow the calendar: within a month the next day has the
/// next number; the first of a month follows the last day of the month
/// before; and the first of January follows the 31st of December.
pub proof fn lemma_days_are_consecutive(year: int, month: int, day: int)
    requires
        0 <= year,
        1 <= month <= 12,
        1 <= day <= days_in_month(year, month),
    ensures
        day < days_in_month(year, month) ==> day_number(year, month, day + 1) == day_number(
            year,
            month,
            day,
        ) + 1,
        day == days_in_month(year, month) && month < 12 ==> day_number(year, month + 1, 1)
            == day_number(year, month, day) + 1,
        day == days_in_month(year, month) && month == 12 ==> day_number(year + 1, 1, 1)
            == day_number(year, month, day) + 1,
{
    reveal_with_fuel(days_before_month, 13);
    if month == 12 && day == 31 {
        assert(days_before_month(year, 12) + 31 == 365 + if is_leap_year(year) {
            1int
        } else {
            0int
        });
        assert(leap_years_before(year + 1) - leap_years_before(year) == if is_leap_year(year) {
            1int
        } else {
            0int
        });
    }
}

/// The numeral of a digit is one character, and it reads back as the digit.
pub proof fn lemma_digit_reads_back(d: int)
    requires
        0 <= d <= 9,
    ensures
        digit_text(d).len() == 1,
        digit_value(digit_text(d)[0]) == Some(d),
{
    reveal_strlit("0");
    reveal_strlit("1");
    reveal_strlit("2");
    reveal_strlit("3");
    reveal_strlit("4");
    reveal_strlit("5");
    reveal_strlit("6");
    reveal_strlit("7");
    reveal_strlit("8");
    reveal_strlit("9");
}

/// Two padded digits are two characters, and they read back as the number.
pub proof fn lemma_two_digits_read_back(n: int)
    requires
        0 <= n <= 99,
    ensures
        two_digits(n).len() == 2,
        digit_value(two_digits(n)[0]) == Some(n / 10),
        digit_value(two_digits(n)[1]) == Some(n % 10),
{
    lemma_digit_reads_back(n / 10);
    lemma_digit_reads_back(n % 10);
}

/// What a timestamp writes reads back as the same timestamp.
pub proof fn lemma_text_reads_back(t: Timestamp)
    requires
        t.valid(),
    ensures
        t.text().len() == 19,
        Timestamp::from_text(t.text()) == Some(t),
{
    reveal_strlit("-");
    reveal_strlit(" ");
    reveal_strlit(":");
    let y = t.spec_year();
    let s = t.text();
    lemma_two_digits_read_back(y / 100);
    lemma_two_digits_read_back(y % 100);
    lemma_two_digits_read_back(t.spec_month());
    lemma_two_digits_read_back(t.spec_day());
    lemma_two_digits_read_back(t.spec_hour());
    lemma_two_digits_read_back(t.spec_minute());
    lemma_two_digits_read_back(t.spec_second());
    let year_text = four_digits(y);
    assert(year_text.len() == 4);
    assert(s.len() == 19);
    assert(s[0] == two_digits(y / 100)[0]);
    assert(s[1] == two_digits(y / 100)[1]);
    assert(s[2] == two_digits(y % 100)[0]);
    assert(s[3] == two_digits(y % 100)[1]);
    assert(s[4] == '-');
    assert(s[5] == two_digits(t.spec_month())[0]);
    assert(s[6] == two_digits(t.spec_month())[1]);
    assert(s[7] == '-');
    assert(s[8] == two_digits(t.spec_day())[0]);
    assert(s[9] == two_digits(t.spec_day())[1]);
    assert(s[10] == ' ');
    assert(s[11] == two_digits(t.spec_hour())[0]);
    assert(s[12] == two_digits(t.spec_hour())[1]);
    assert(s[13] == ':');
    assert(s[14] == two_digits(t.spec_minute())[0]);
    assert(s[15] == two_digits(t.spec_minute())[1]);
    assert(s[16] == ':');
    assert(s[17] == two_digits(t.spec_second())[0]);
    assert(s[18] == two_digits(t.spec_second())[1]);
    reveal_with_fuel(digits_value, 5);
    assert(digits_value(s, 0, 4) == Some(y)) by {
        assert(digits_value(s, 0, 0) == Some(0int));
        assert(digits_value(s, 0, 1) == Some(y / 100 / 10));
        assert(digits_value(s, 0, 2) == Some(y / 100));
        assert(digits_value(s, 0, 3) == Some((y / 100) * 10 + (y % 100) / 10));
    }
    assert(digits_value(s, 5, 2) == Some(t.spec_month()));
    assert(digits_value(s, 8, 2) == Some(t.spec_day()));
    assert(digits_value(s, 11, 2) == Some(t.spec_hour()));
    assert(digits_value(s, 14, 2) == Some(t.spec_minute()));
    assert(digits_value(s, 17, 2) == Some(t.spec_second()));
    t.lemma_determined();
}

} // verus!
