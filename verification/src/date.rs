//! Dates of the Gregorian calendar and dates counted in eras.

use vstd::prelude::*;
use vstd::std_specs::convert::FromSpecImpl;
use std::str::FromStr;
use chrono::NaiveDate;
use chrono::Datelike;
use crate::error::{framed, invalid_argument, plain_outcome, Error, ErrorView};
use crate::gengo::{lemma_gengo_year_round_trip, Era, GengoYear};
use crate::number::{
    all_ascii_digits, decimal, decimal_string, decimal_value, digits_value,
    lemma_decimal_value_bound, lemma_digits_split, lemma_padded_round_trip, padded,
    padded_string, pow10, signed_padded, signed_padded_string,
};
use crate::text::chars_of;

verus! {

/// `chrono::NaiveDate`, a day of the calendar, carried as it is.
#[verifier::external_type_specification]
#[verifier::external_body]
pub struct ExNaiveDate(NaiveDate);

/// The year, month and day of the calendar date that a `chrono::NaiveDate`
/// holds.
pub uninterp spec fn naive_date_ymd(d: NaiveDate) -> (i32, u32, u32);

/// Whether `y` is a leap year of the Gregorian calendar, which is carried
/// back before its introduction.
pub open spec fn is_leap_year(y: int) -> bool {
    y % 4 == 0 && (y % 100 != 0 || y % 400 == 0)
}

/// How many days the month `m` of the year `y` has.
pub open spec fn days_in_month(y: int, m: int) -> int {
    if m == 2 {
        if is_leap_year(y) {
            29
        } else {
            28
        }
    } else if m == 4 || m == 6 || m == 9 || m == 11 {
        30
    } else {
        31
    }
}

/// Whether there is a day `d` of the month `m` of the year `y`, within the
/// years that `chrono::NaiveDate` can hold.
pub open spec fn is_calendar_ymd(y: int, m: int, d: int) -> bool {
    -262143 <= y <= 262142 && 1 <= m <= 12 && 1 <= d <= days_in_month(y, m)
}

/// `chrono::NaiveDate::from_ymd_opt`: the date of the given year, month and
/// day where the calendar has that day and the year is one the type holds,
/// nothing otherwise.
#[verifier::external_body]
fn naive_from_ymd(y: i32, m: u32, d: u32) -> (r: Option<NaiveDate>)
    ensures
        r is Some <==> is_calendar_ymd(y as int, m as int, d as int),
        r matches Some(n) ==> naive_date_ymd(n) == (y, m, d),
{
    NaiveDate::from_ymd_opt(y, m, d)
}

/// `chrono::Datelike::year` of a `NaiveDate`: the year of its calendar date.
#[verifier::external_body]
fn naive_year(d: &NaiveDate) -> (y: i32)
    ensures
        y == naive_date_ymd(*d).0,
{
    d.year()
}

/// `chrono::Datelike::month` of a `NaiveDate`: the month of its calendar
/// date, from 1 to 12.
#[verifier::external_body]
fn naive_month(d: &NaiveDate) -> (m: u32)
    ensures
        m == naive_date_ymd(*d).1,
        1 <= m <= 12,
{
    d.month()
}

/// `chrono::Datelike::day` of a `NaiveDate`: the day of its calendar date,
/// from 1 to 31.
#[verifier::external_body]
fn naive_day(d: &NaiveDate) -> (day: u32)
    ensures
        day == naive_date_ymd(*d).2,
        1 <= day <= 31,
{
    d.day()
}

/// Whether the day `(y, m, d)` is the day `(y0, m0, d0)` or a later one.
pub open spec fn on_or_after(y: int, m: int, d: int, y0: int, m0: int, d0: int) -> bool {
    y > y0 || (y == y0 && (m > m0 || (m == m0 && d >= d0)))
}

/// The era that a day of the Gregorian calendar falls in. Eras are counted
/// from 1873, the year in which Japan took up that calendar.
pub open spec fn era_at(y: int, m: int, d: int) -> Option<Era> {
    if on_or_after(y, m, d, 2019, 5, 1) {
        Some(Era::Reiwa)
    } else if on_or_after(y, m, d, 1989, 1, 8) {
        Some(Era::Heisei)
    } else if on_or_after(y, m, d, 1926, 12, 25) {
        Some(Era::Showa)
    } else if on_or_after(y, m, d, 1912, 7, 30) {
        Some(Era::Taisho)
    } else if y >= 1873 {
        Some(Era::Meiji)
    } else {
        None
    }
}

fn is_on_or_after(y: i32, m: u32, d: u32, y0: i32, m0: u32, d0: u32) -> (r: bool)
    ensures
        r == on_or_after(y as int, m as int, d as int, y0 as int, m0 as int, d0 as int),
{
    y > y0 || (y == y0 && (m > m0 || (m == m0 && d >= d0)))
}

fn find_era(y: i32, m: u32, d: u32) -> (r: Option<Era>)
    ensures
        r == era_at(y as int, m as int, d as int),
{
    if is_on_or_after(y, m, d, 2019, 5, 1) {
        Some(Era::Reiwa)
    } else if is_on_or_after(y, m, d, 1989, 1, 8) {
        Some(Era::Heisei)
    } else if is_on_or_after(y, m, d, 1926, 12, 25) {
        Some(Era::Showa)
    } else if is_on_or_after(y, m, d, 1912, 7, 30) {
        Some(Era::Taisho)
    } else if y >= 1873 {
        Some(Era::Meiji)
    } else {
        None
    }
}

/// A date, kept in the calendar in which it was given.
#[derive(Debug, Clone, Copy, PartialEq, Eq, Hash, Structural)]
pub enum Date {
    /// A date of the Gregorian calendar.
    Seireki { year: i32, month: u32, day: u32 },
    /// A date counted in an era.
    Wareki { gengo_year: GengoYear, month: u32, day: u32 },
}

impl Date {
    /// The month.
    pub open spec fn month(self) -> u32 {
        match self {
            Date::Seireki { month, .. } => month,
            Date::Wareki { month, .. } => month,
        }
    }

    /// The day of the month.
    pub open spec fn day(self) -> u32 {
        match self {
            Date::Seireki { day, .. } => day,
            Date::Wareki { day, .. } => day,
        }
    }

    /// The year of the Gregorian calendar: a year of an era is counted on
    /// from the year before the era's first.
    pub open spec fn gregorian_year(self) -> int {
        match self {
            Date::Seireki { year, .. } => year as int,
            Date::Wareki { gengo_year, .. } => gengo_year.year() + gengo_year.era().offset(),
        }
    }

    /// The month and the day in two digits each.
    pub open spec fn month_day_code(self) -> Seq<char> {
        padded(self.month() as nat, 2) + padded(self.day() as nat, 2)
    }

    /// The code in a file, in the calendar in which the date was given: the
    /// year in four digits, or the era's letter and the year in two, then
    /// month and day.
    pub open spec fn code(self) -> Seq<char> {
        match self {
            Date::Seireki { year, .. } => signed_padded(year as int, 4) + self.month_day_code(),
            Date::Wareki { gengo_year, .. } => gengo_year.code() + self.month_day_code(),
        }
    }

    /// The code of the date in the Gregorian calendar.
    pub open spec fn seireki8(self) -> Seq<char> {
        signed_padded(self.gregorian_year(), 4) + self.month_day_code()
    }

    /// The code of the date counted in an era. A Gregorian date before 1873
    /// has none.
    pub open spec fn wareki7(self) -> Result<Seq<char>, ErrorView> {
        match self {
            Date::Seireki { year, month, day } => match era_at(
                year as int,
                month as int,
                day as int,
            ) {
                Some(era) => Ok(
                    seq![era.letter()] + signed_padded(year - era.offset(), 2)
                        + self.month_day_code(),
                ),
                None => Err(
                    invalid_argument(
                        "Cannot convert seireki8 to wareki7, got \""@ + self.code() + "\""@,
                    ),
                ),
            },
            Date::Wareki { .. } => Ok(self.code()),
        }
    }

    /// The date for a reader.
    pub open spec fn label(self) -> Seq<char> {
        let tail = decimal(self.month() as nat) + "月"@ + decimal(self.day() as nat) + "日"@;
        match self {
            Date::Seireki { year, .. } => signed_padded(year as int, 0) + "年"@ + tail,
            Date::Wareki { gengo_year, .. } => gengo_year.label() + tail,
        }
    }

    /// What reading the text `s` gives: eight digits are a Gregorian date,
    /// one of the letters R, H, S, T, M and six digits a date in an era.
    pub open spec fn spec_from_str(s: Seq<char>) -> Result<Date, ErrorView> {
        if s.len() == 8 && all_ascii_digits(s) {
            Ok(
                Date::Seireki {
                    year: decimal_value(s.subrange(0, 4)) as i32,
                    month: decimal_value(s.subrange(4, 6)) as u32,
                    day: decimal_value(s.subrange(6, 8)) as u32,
                },
            )
        } else if s.len() == 7 && Era::from_letter(s[0]) is Some && all_ascii_digits(s.skip(1)) {
            Ok(
                Date::Wareki {
                    gengo_year: GengoYear::of(
                        Era::from_letter(s[0]).unwrap(),
                        decimal_value(s.subrange(1, 3)) as i32,
                    ),
                    month: decimal_value(s.subrange(3, 5)) as u32,
                    day: decimal_value(s.subrange(5, 7)) as u32,
                },
            )
        } else {
            Err(invalid_argument("Cannot convert str to Date, got \""@ + s + "\""@))
        }
    }

    /// Whether the calendar has this day.
    pub open spec fn is_calendar_date(self) -> bool {
        is_calendar_ymd(self.gregorian_year(), self.month() as int, self.day() as int)
    }

    fn month_day_string(&self) -> (r: String)
        ensures
            r@ == self.month_day_code(),
    {
        let (m, d) = match self {
            Date::Seireki { month, day, .. } => (*month, *day),
            Date::Wareki { month, day, .. } => (*month, *day),
        };
        let mut r = padded_string(m as u64, 2);
        let day = padded_string(d as u64, 2);
        r.append(day.as_str());
        r
    }

    /// The year of the Gregorian calendar.
    pub fn to_gregorian_year(&self) -> (r: i64)
        ensures
            r == self.gregorian_year(),
    {
        match self {
            Date::Seireki { year, .. } => *year as i64,
            Date::Wareki { gengo_year, .. } => {
                let (era, year) = gengo_year.parts();
                year as i64 + era.to_offset() as i64
            },
        }
    }

    /// The code in a file, in the calendar in which the date was given.
    pub fn to_code(&self) -> (r: String)
        ensures
            r@ == self.code(),
    {
        let mut r = match self {
            Date::Seireki { year, .. } => signed_padded_string(*year as i64, 4),
            Date::Wareki { gengo_year, .. } => gengo_year.to_code(),
        };
        let tail = self.month_day_string();
        r.append(tail.as_str());
        r
    }

    /// The code of the date in the Gregorian calendar.
    pub fn to_seireki8(&self) -> (r: String)
        ensures
            r@ == self.seireki8(),
    {
        let mut r = signed_padded_string(self.to_gregorian_year(), 4);
        let tail = self.month_day_string();
        r.append(tail.as_str());
        r
    }

    /// The code of the date counted in an era.
    pub fn try_to_wareki7(&self) -> (r: Result<String, Error>)
        ensures
            match r {
                Ok(code) => self.wareki7() == Ok::<Seq<char>, ErrorView>(code@),
                Err(e) => self.wareki7() == Err::<Seq<char>, ErrorView>(e@),
            },
    {
        match self {
            Date::Seireki { year, month, day } => match find_era(*year, *month, *day) {
                Some(era) => {
                    let mut r = String::new();
                    r.push(era.to_letter());
                    let y = signed_padded_string(*year as i64 - era.to_offset() as i64, 2);
                    r.append(y.as_str());
                    let tail = self.month_day_string();
                    r.append(tail.as_str());
                    assert(r@ =~= seq![era.letter()] + signed_padded(*year - era.offset(), 2)
                        + self.month_day_code());
                    Ok(r)
                },
                None => {
                    let code = self.to_code();
                    Err(
                        Error::InvalidArgument(
                            framed(
                                "Cannot convert seireki8 to wareki7, got \"", code.as_str(), "\"",
                            ),
                        ),
                    )
                },
            },
            Date::Wareki { .. } => Ok(self.to_code()),
        }
    }

    /// The date for a reader.
    pub fn to_string(&self) -> (r: String)
        ensures
            r@ == self.label(),
    {
        let (mut r, m, d) = match self {
            Date::Seireki { year, month, day } => {
                let mut r = signed_padded_string(*year as i64, 0);
                r.append("年");
                (r, *month, *day)
            },
            Date::Wareki { gengo_year, month, day } => (gengo_year.to_string(), *month, *day),
        };
        let ghost head = r@;
        let month = decimal_string(m as u64);
        r.append(month.as_str());
        r.append("月");
        let day = decimal_string(d as u64);
        r.append(day.as_str());
        r.append("日");
        assert(r@ =~= head + (decimal(m as nat) + "月"@ + decimal(d as nat) + "日"@));
        r
    }

    /// Whether the calendar has this day.
    pub fn exists_in_calendar(&self) -> (r: bool)
        ensures
            r == self.is_calendar_date(),
    {
        let y = self.to_gregorian_year();
        let (m, d) = match self {
            Date::Seireki { month, day, .. } => (*month, *day),
            Date::Wareki { month, day, .. } => (*month, *day),
        };
        if y < -262143 || y > 262142 || m < 1 || m > 12 || d < 1 {
            return false;
        }
        let shifted: u64 = (y + 400000) as u64;
        assert(shifted as int % 4 == y as int % 4);
        assert(shifted as int % 100 == y as int % 100);
        assert(shifted as int % 400 == y as int % 400);
        let leap = shifted % 4 == 0 && (shifted % 100 != 0 || shifted % 400 == 0);
        let days: u32 = if m == 2 {
            if leap {
                29
            } else {
                28
            }
        } else if m == 4 || m == 6 || m == 9 || m == 11 {
            30
        } else {
            31
        };
        d <= days
    }

    /// The date as a `chrono::NaiveDate`, for a day that the calendar has.
    pub fn to_naivedate(&self) -> (r: NaiveDate)
        requires
            self.is_calendar_date(),
        ensures
            naive_date_ymd(r).0 == self.gregorian_year(),
            naive_date_ymd(r).1 == self.month(),
            naive_date_ymd(r).2 == self.day(),
    {
        let y = self.to_gregorian_year();
        let (m, d) = match self {
            Date::Seireki { month, day, .. } => (*month, *day),
            Date::Wareki { month, day, .. } => (*month, *day),
        };
        match naive_from_ymd(y as i32, m, d) {
            Some(n) => n,
            None => vstd::pervasive::unreached(),
        }
    }

    /// The date as a `chrono::NaiveDate`, or nothing where the calendar has
    /// no such day.
    pub fn try_to_naivedate(&self) -> (r: Option<NaiveDate>)
        ensures
            r is Some <==> self.is_calendar_date(),
            r matches Some(n) ==> naive_date_ymd(n).0 == self.gregorian_year() && naive_date_ymd(
                n,
            ).1 == self.month() && naive_date_ymd(n).2 == self.day(),
    {
        if self.exists_in_calendar() {
            Some(self.to_naivedate())
        } else {
            None
        }
    }
}

impl FromStr for Date {
    type Err = Error;

    /// Reads a date from its code, such as `20190501` or `R010501`.
    fn from_str(s: &str) -> (r: Result<Self, Self::Err>)
        ensures
            plain_outcome(r) == Self::spec_from_str(s@),
    {
        let v = chars_of(s);
        proof {
            reveal_with_fuel(pow10, 5);
        }
        if v.len() == 8 {
            proof {
                lemma_digits_split(s@, 4);
                lemma_digits_split(s@.subrange(4, 8), 2);
                assert(s@.subrange(4, 8).subrange(0, 2) =~= s@.subrange(4, 6));
                assert(s@.subrange(4, 8).subrange(2, 4) =~= s@.subrange(6, 8));
            }
            let year = digits_value(&v, 0, 4);
            let month = digits_value(&v, 4, 6);
            let day = digits_value(&v, 6, 8);
            if let (Some(year), Some(month), Some(day)) = (year, month, day) {
                proof {
                    lemma_decimal_value_bound(s@.subrange(0, 4));
                }
                return Ok(Date::Seireki { year: year as i32, month, day });
            }
        } else if v.len() == 7 {
            proof {
                let t = s@.skip(1);
                lemma_digits_split(t, 2);
                lemma_digits_split(t.subrange(2, 6), 2);
                assert(t.subrange(0, 2) =~= s@.subrange(1, 3));
                assert(t.subrange(2, 6).subrange(0, 2) =~= s@.subrange(3, 5));
                assert(t.subrange(2, 6).subrange(2, 4) =~= s@.subrange(5, 7));
            }
            if let Some(era) = Era::of_letter(v[0]) {
                let year = digits_value(&v, 1, 3);
                let month = digits_value(&v, 3, 5);
                let day = digits_value(&v, 5, 7);
                if let (Some(year), Some(month), Some(day)) = (year, month, day) {
                    proof {
                        lemma_decimal_value_bound(s@.subrange(1, 3));
                    }
                    return Ok(
                        Date::Wareki {
                            gengo_year: GengoYear::from_parts(era, year as i32),
                            month,
                            day,
                        },
                    );
                }
            }
        }
        Err(Error::InvalidArgument(framed("Cannot convert str to Date, got \"", s, "\"")))
    }
}

impl FromSpecImpl<NaiveDate> for Date {
    open spec fn obeys_from_spec() -> bool {
        true
    }

    open spec fn from_spec(d: NaiveDate) -> Date {
        Date::Seireki {
            year: naive_date_ymd(d).0,
            month: naive_date_ymd(d).1,
            day: naive_date_ymd(d).2,
        }
    }
}

impl From<NaiveDate> for Date {
    /// The Gregorian date that `d` holds.
    fn from(d: NaiveDate) -> (r: Date) {
        Date::Seireki { year: naive_year(&d), month: naive_month(&d), day: naive_day(&d) }
    }
}

impl Date {
    /// Whether the code of this date has the width that the format gives
    /// it: a Gregorian year of at most four digits, a year of an era of at
    /// most two, and month and day of at most two each.
    pub open spec fn fits_code(self) -> bool {
        &&& self.month() <= 99
        &&& self.day() <= 99
        &&& match self {
            Date::Seireki { year, .. } => 0 <= year <= 9999,
            Date::Wareki { gengo_year, .. } => 0 <= gengo_year.year() <= 99,
        }
    }
}

/// Month and day in two digits each are four digits that write them.
proof fn lemma_month_day_code(d: Date)
    requires
        d.month() <= 99,
        d.day() <= 99,
    ensures
        d.month_day_code().len() == 4,
        all_ascii_digits(d.month_day_code()),
        decimal_value(d.month_day_code().subrange(0, 2)) == d.month(),
        decimal_value(d.month_day_code().subrange(2, 4)) == d.day(),
{
    reveal_with_fuel(pow10, 3);
    lemma_padded_round_trip(d.month() as nat, 2);
    lemma_padded_round_trip(d.day() as nat, 2);
    let md = d.month_day_code();
    assert(md.subrange(0, 2) =~= padded(d.month() as nat, 2));
    assert(md.subrange(2, 4) =~= padded(d.day() as nat, 2));
    lemma_digits_split(md, 2);
}

/// A date whose code has the width that the format gives it reads back
/// from its code as itself.
pub proof fn lemma_date_round_trip(d: Date)
    requires
        d.fits_code(),
    ensures
        Date::spec_from_str(d.code()) == Ok::<Date, ErrorView>(d),
        d.code().len() == 7 || d.code().len() == 8,
        d.code().len() == 8 ==> all_ascii_digits(d.code()),
        d.code().len() == 7 ==> Era::from_letter(d.code()[0]) is Some && all_ascii_digits(
            d.code().skip(1),
        ),
{
    reveal_with_fuel(pow10, 5);
    lemma_month_day_code(d);
    let md = d.month_day_code();
    let s = d.code();
    match d {
        Date::Seireki { year, month, day } => {
            lemma_padded_round_trip(year as nat, 4);
            let y = padded(year as nat, 4);
            assert(s =~= y + md);
            assert(s.subrange(0, 4) =~= y);
            assert(s.subrange(4, 8) =~= md);
            assert(s.subrange(4, 6) =~= md.subrange(0, 2));
            assert(s.subrange(6, 8) =~= md.subrange(2, 4));
            lemma_digits_split(s, 4);
        },
        Date::Wareki { gengo_year, month, day } => {
            lemma_gengo_year_round_trip(gengo_year);
            let g = gengo_year.code();
            assert(s =~= g + md);
            assert(s[0] == g[0]);
            let t = s.skip(1);
            assert(t =~= g.skip(1) + md);
            assert(t.subrange(0, 2) =~= g.skip(1));
            assert(t.subrange(2, 6) =~= md);
            lemma_digits_split(t, 2);
            assert(s.subrange(1, 3) =~= g.skip(1));
            assert(s.subrange(3, 5) =~= md.subrange(0, 2));
            assert(s.subrange(5, 7) =~= md.subrange(2, 4));
            assert(GengoYear::of(gengo_year.era(), gengo_year.year()) == gengo_year);
            assert(Era::from_letter(gengo_year.era().letter()) == Some(gengo_year.era()));
        },
    }
}

/// A Gregorian date from 1873 on, written as its code in an era, reads back
/// as a date in that era that is the same day: the year of the era is
/// counted from the era's offset, and month and day are kept. The year of
/// an era has two digits, so this ends with the 99th year of Reiwa, 2117.
pub proof fn lemma_era_code_round_trip(year: i32, month: u32, day: u32)
    requires
        era_at(year as int, month as int, day as int) is Some,
        year <= 2117,
        month <= 99,
        day <= 99,
    ensures
        ({
            let d = Date::Seireki { year, month, day };
            let era = era_at(year as int, month as int, day as int).unwrap();
            let back = Date::Wareki {
                gengo_year: GengoYear::of(era, (year - era.offset()) as i32),
                month,
                day,
            };
            &&& d.wareki7() == Ok::<Seq<char>, ErrorView>(back.code())
            &&& Date::spec_from_str(back.code()) == Ok::<Date, ErrorView>(back)
            &&& back.gregorian_year() == year
            &&& back.seireki8() == d.seireki8()
        }),
{
    let d = Date::Seireki { year, month, day };
    let era = era_at(year as int, month as int, day as int).unwrap();
    let back = Date::Wareki {
        gengo_year: GengoYear::of(era, (year - era.offset()) as i32),
        month,
        day,
    };
    lemma_date_round_trip(back);
    assert(back.code() =~= seq![era.letter()] + signed_padded(year - era.offset(), 2)
        + d.month_day_code());
}

/// The code in the Gregorian calendar of a date that fits its code is eight
/// digits.
pub proof fn lemma_seireki8_is_eight_digits(d: Date)
    requires
        d.fits_code(),
    ensures
        d.seireki8().len() == 8,
        all_ascii_digits(d.seireki8()),
{
    reveal_with_fuel(pow10, 5);
    lemma_month_day_code(d);
    lemma_padded_round_trip(d.gregorian_year() as nat, 4);
    let y = padded(d.gregorian_year() as nat, 4);
    let s = d.seireki8();
    assert(s.subrange(0, 4) =~= y);
    assert(s.subrange(4, 8) =~= d.month_day_code());
    lemma_digits_split(s, 4);
}

/// A date that was read from a code fits its code.
pub proof fn lemma_read_date_fits(s: Seq<char>)
    requires
        Date::spec_from_str(s) is Ok,
    ensures
        (Date::spec_from_str(s)->Ok_0).fits_code(),
{
    reveal_with_fuel(pow10, 5);
    if s.len() == 8 {
        lemma_digits_split(s, 4);
        lemma_digits_split(s.subrange(4, 8), 2);
        assert(s.subrange(4, 8).subrange(0, 2) =~= s.subrange(4, 6));
        assert(s.subrange(4, 8).subrange(2, 4) =~= s.subrange(6, 8));
        lemma_decimal_value_bound(s.subrange(0, 4));
        lemma_decimal_value_bound(s.subrange(4, 6));
        lemma_decimal_value_bound(s.subrange(6, 8));
    } else {
        let t = s.skip(1);
        lemma_digits_split(t, 2);
        lemma_digits_split(t.subrange(2, 6), 2);
        assert(t.subrange(0, 2) =~= s.subrange(1, 3));
        assert(t.subrange(2, 6).subrange(0, 2) =~= s.subrange(3, 5));
        assert(t.subrange(2, 6).subrange(2, 4) =~= s.subrange(5, 7));
        lemma_decimal_value_bound(s.subrange(1, 3));
        lemma_decimal_value_bound(s.subrange(3, 5));
        lemma_decimal_value_bound(s.subrange(5, 7));
    }
}

} // verus!
