//! Calendar dates as the task manager writes them: `DD-MM-YY`, two digits
//! each for day, month and year, the year counted from 2000.

use vstd::prelude::*;

verus! {

/// Why a text is not a date.
#[derive(Clone, Copy, Debug, PartialEq, Eq, Structural)]
pub enum DateError {
    /// The text is not eight characters of the form `DD-MM-YY`.
    Malformed,
    /// The text has the right form but names no day of the calendar.
    NoSuchDay,
}

/// A day of the calendar as three numbers.
pub struct DayView {
    pub year: int,
    pub month: int,
    pub day: int,
}

pub open spec fn is_leap_year(year: int) -> bool {
    year % 4 == 0 && (year % 100 != 0 || year % 400 == 0)
}

pub open spec fn days_in_month(year: int, month: int) -> int {
    if month == 2 {
        if is_leap_year(year) {
            29
        } else {
            28
        }
    } else if month == 4 || month == 6 || month == 9 || month == 11 {
        30
    } else {
        31
    }
}

/// The day with these numbers.
pub open spec fn day_of(year: int, month: int, day: int) -> DayView {
    DayView { year, month, day }
}

impl DayView {
    /// The days that two digits of year can name: those of 2000 to 2099.
    pub open spec fn valid(self) -> bool {
        &&& 2000 <= self.year <= 2099
        &&& 1 <= self.month <= 12
        &&& 1 <= self.day <= days_in_month(self.year, self.month)
    }
}

/// The value of a decimal digit.
pub open spec fn digit_value(c: char) -> Option<int> {
    if '0' <= c && c <= '9' {
        Some(c as int - '0' as int)
    } else {
        None
    }
}

/// The decimal digit for a value below ten.
pub open spec fn digit_char(d: int) -> char {
    ('0' as int + d) as char
}

/// The number that the two digits at `i` and `i + 1` spell.
pub open spec fn number_at(s: Seq<char>, i: int) -> int {
    10 * digit_value(s[i]).unwrap() + digit_value(s[i + 1]).unwrap()
}

/// Eight characters: digits but for a hyphen in the third and sixth place.
pub open spec fn well_shaped(s: Seq<char>) -> bool {
    &&& s.len() == 8
    &&& s[2] == '-'
    &&& s[5] == '-'
    &&& digit_value(s[0]) is Some
    &&& digit_value(s[1]) is Some
    &&& digit_value(s[3]) is Some
    &&& digit_value(s[4]) is Some
    &&& digit_value(s[6]) is Some
    &&& digit_value(s[7]) is Some
}

/// What a text means as a date.
pub open spec fn parse_text(s: Seq<char>) -> Result<DayView, DateError> {
    if !well_shaped(s) {
        Err(DateError::Malformed)
    } else {
        let v = day_of(2000 + number_at(s, 6), number_at(s, 3), number_at(s, 0));
        if v.valid() {
            Ok(v)
        } else {
            Err(DateError::NoSuchDay)
        }
    }
}

/// How a day is written.
pub open spec fn day_text(v: DayView) -> Seq<char> {
    seq![
        digit_char(v.day / 10),
        digit_char(v.day % 10),
        '-',
        digit_char(v.month / 10),
        digit_char(v.month % 10),
        '-',
        digit_char((v.year % 100) / 10),
        digit_char(v.year % 10),
    ]
}

/// How an optional day is written: nothing at all where there is none.
pub open spec fn date_text(d: Option<DayView>) -> Seq<char> {
    match d {
        Some(v) => day_text(v),
        None => Seq::empty(),
    }
}

/// Reading back what was written gives the day that was written.
pub proof fn lemma_text_round_trip(v: DayView)
    requires
        v.valid(),
    ensures
        parse_text(day_text(v)) == Ok::<DayView, DateError>(v),
{
}

/// A day between 1 January 2000 and 31 December 2099.
#[derive(Clone, Copy, Debug, PartialEq, Eq)]
pub struct CalendarDay {
    year: u16,
    month: u8,
    day: u8,
}

impl View for CalendarDay {
    type V = DayView;

    closed spec fn view(&self) -> DayView {
        DayView { year: self.year as int, month: self.month as int, day: self.day as int }
    }
}

fn month_length(year: u16, month: u8) -> (r: u8)
    ensures
        r == days_in_month(year as int, month as int),
{
    if month == 2 {
        if year % 4 == 0 && (year % 100 != 0 || year % 400 == 0) {
            29
        } else {
            28
        }
    } else if month == 4 || month == 6 || month == 9 || month == 11 {
        30
    } else {
        31
    }
}

impl CalendarDay {
    #[verifier::type_invariant]
    spec fn inv(self) -> bool {
        self@.valid()
    }

    /// The day with these numbers, if the calendar has it.
    pub fn new(year: u16, month: u8, day: u8) -> (r: Option<CalendarDay>)
        ensures
            match r {
                Some(d) => d@ == day_of(year as int, month as int, day as int) && d@.valid(),
                None => !day_of(year as int, month as int, day as int).valid(),
            },
    {
        if 2000 <= year && year <= 2099 && 1 <= month && month <= 12 && 1 <= day && day
            <= month_length(year, month) {
            Some(CalendarDay { year, month, day })
        } else {
            None
        }
    }

    pub fn year(&self) -> (r: u16)
        ensures
            r == self@.year,
            self@.valid(),
    {
        proof {
            use_type_invariant(self);
        }
        self.year
    }

    pub fn month(&self) -> (r: u8)
        ensures
            r == self@.month,
            self@.valid(),
    {
        proof {
            use_type_invariant(self);
        }
        self.month
    }

    pub fn day(&self) -> (r: u8)
        ensures
            r == self@.day,
            self@.valid(),
    {
        proof {
            use_type_invariant(self);
        }
        self.day
    }
}

/// A task's date: a day, or none.
#[derive(Clone, Copy, Debug, PartialEq, Eq)]
pub struct Date(pub Option<CalendarDay>);

impl View for Date {
    type V = Option<DayView>;

    open spec fn view(&self) -> Option<DayView> {
        match self.0 {
            Some(d) => Some(d@),
            None => None,
        }
    }
}

/// The day that every stored task shows: 30 September 2024. The table has no
/// column for dates.
pub open spec fn placeholder_day() -> DayView {
    day_of(2024, 9, 30)
}

fn digit_of(c: char) -> (r: Option<u8>)
    ensures
        match r {
            Some(v) => digit_value(c) == Some(v as int) && v < 10,
            None => digit_value(c) is None,
        },
{
    if c >= '0' && c <= '9' {
        Some((c as u32 - '0' as u32) as u8)
    } else {
        None
    }
}

fn digit_text(d: u8) -> (r: &'static str)
    requires
        d < 10,
    ensures
        r@ == seq![digit_char(d as int)],
{
    proof {
        reveal_strlit("0");
        reveal_strlit("1");
        reveal_strlit("2");
        reveal_strlit("3");
        reveal_strlit("4");
        reveal_strlit("5");
        reveal_strlit("6");
        reveal_strlit("7");
        reveal_strlit("8");
        reveal_strlit("9");
    }
    match d {
        0 => "0",
        1 => "1",
        2 => "2",
        3 => "3",
        4 => "4",
        5 => "5",
        6 => "6",
        7 => "7",
        8 => "8",
        _ => "9",
    }
}

/// Appends the two digits of a number below one hundred.
fn push_two_digits(text: &mut String, n: u8)
    requires
        n < 100,
    ensures
        final(text)@ == old(text)@ + seq![digit_char(n as int / 10), digit_char(n as int % 10)],
{
    text.append(digit_text(n / 10));
    text.append(digit_text(n % 10));
}

impl Date {
    /// The date without a day.
    pub fn none() -> (r: Date)
        ensures
            r@ is None,
    {
        Date(None)
    }

    /// The day that every stored task shows.
    pub fn placeholder() -> (r: Date)
        ensures
            r@ == Some(placeholder_day()),
    {
        let day = CalendarDay::new(2024, 9, 30);
        Date(day)
    }

    /// Reads a date written as `DD-MM-YY`.
    pub fn try_from(text: String) -> (r: Result<Date, DateError>)
        ensures
            match parse_text(text@) {
                Ok(v) => r matches Ok(d) && d@ == Some(v),
                Err(e) => r == Err::<Date, DateError>(e),
            },
    {
        let s = text.as_str();
        if s.unicode_len() != 8 {
            return Err(DateError::Malformed);
        }
        if s.get_char(2) != '-' || s.get_char(5) != '-' {
            return Err(DateError::Malformed);
        }
        let d0 = digit_of(s.get_char(0));
        let d1 = digit_of(s.get_char(1));
        let m0 = digit_of(s.get_char(3));
        let m1 = digit_of(s.get_char(4));
        let y0 = digit_of(s.get_char(6));
        let y1 = digit_of(s.get_char(7));
        match (d0, d1, m0, m1, y0, y1) {
            (Some(d0), Some(d1), Some(m0), Some(m1), Some(y0), Some(y1)) => {
                let day: u8 = 10 * d0 + d1;
                let month: u8 = 10 * m0 + m1;
                let year: u16 = 2000 + (10 * y0 + y1) as u16;
                match CalendarDay::new(year, month, day) {
                    Some(d) => Ok(Date(Some(d))),
                    None => Err(DateError::NoSuchDay),
                }
            },
            _ => Err(DateError::Malformed),
        }
    }

    /// Writes the date as `DD-MM-YY`; a date without a day is written as the
    /// empty text.
    pub fn to_text(&self) -> (r: String)
        ensures
            r@ == date_text(self@),
    {
        let mut text = String::new();
        match self.0 {
            Some(d) => {
                let year = d.year();
                push_two_digits(&mut text, d.day());
                text.append("-");
                push_two_digits(&mut text, d.month());
                text.append("-");
                push_two_digits(&mut text, (year % 100) as u8);
                proof {
                    reveal_strlit("-");
                }
            },
            None => {},
        }
        text
    }
}

} // verus!
