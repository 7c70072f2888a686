//! Years counted in Japanese eras.

use vstd::prelude::*;
use std::str::FromStr;
use crate::error::{framed, invalid_argument, parse_int_error, plain_outcome, Error, ErrorView};
use crate::number::{
    all_ascii_digits, decimal_value, is_ascii_digit, lemma_padded_round_trip, padded, parse_i32,
    pow10, signed_padded, signed_padded_string, signed_text,
};
use crate::text::{all_digits, chars_of, digit_class, is_all_digits, string_of};

verus! {

/// An era of the Japanese calendar.
#[derive(Debug, Clone, Copy, PartialEq, Eq, Hash, Structural)]
pub enum Era {
    /// 令和, from 2019.
    Reiwa,
    /// 平成, from 1989.
    Heisei,
    /// 昭和, from 1926.
    Showa,
    /// 大正, from 1912.
    Taisho,
    /// 明治, from 1868.
    Meiji,
}

impl Era {
    /// The letter that stands for the era in a code.
    pub open spec fn letter(self) -> char {
        match self {
            Era::Reiwa => 'R',
            Era::Heisei => 'H',
            Era::Showa => 'S',
            Era::Taisho => 'T',
            Era::Meiji => 'M',
        }
    }

    /// The era that an upper-case letter stands for.
    pub open spec fn from_letter(c: char) -> Option<Era> {
        if c == 'R' {
            Some(Era::Reiwa)
        } else if c == 'H' {
            Some(Era::Heisei)
        } else if c == 'S' {
            Some(Era::Showa)
        } else if c == 'T' {
            Some(Era::Taisho)
        } else if c == 'M' {
            Some(Era::Meiji)
        } else {
            None
        }
    }

    /// The name of the era.
    pub open spec fn name(self) -> Seq<char> {
        match self {
            Era::Reiwa => "令和"@,
            Era::Heisei => "平成"@,
            Era::Showa => "昭和"@,
            Era::Taisho => "大正"@,
            Era::Meiji => "明治"@,
        }
    }

    /// What is added to a year of the era to get the year of the Gregorian
    /// calendar.
    pub open spec fn offset(self) -> int {
        match self {
            Era::Reiwa => 2018,
            Era::Heisei => 1988,
            Era::Showa => 1925,
            Era::Taisho => 1911,
            Era::Meiji => 1867,
        }
    }

    /// The letter that stands for the era in a code.
    pub fn to_letter(&self) -> (c: char)
        ensures
            c == self.letter(),
    {
        match self {
            Era::Reiwa => 'R',
            Era::Heisei => 'H',
            Era::Showa => 'S',
            Era::Taisho => 'T',
            Era::Meiji => 'M',
        }
    }

    /// The era that an upper-case letter stands for.
    pub fn of_letter(c: char) -> (r: Option<Era>)
        ensures
            r == Era::from_letter(c),
    {
        if c == 'R' {
            Some(Era::Reiwa)
        } else if c == 'H' {
            Some(Era::Heisei)
        } else if c == 'S' {
            Some(Era::Showa)
        } else if c == 'T' {
            Some(Era::Taisho)
        } else if c == 'M' {
            Some(Era::Meiji)
        } else {
            None
        }
    }

    /// The name of the era.
    pub fn to_name(&self) -> (r: &'static str)
        ensures
            r@ == self.name(),
    {
        match self {
            Era::Reiwa => "令和",
            Era::Heisei => "平成",
            Era::Showa => "昭和",
            Era::Taisho => "大正",
            Era::Meiji => "明治",
        }
    }

    /// What is added to a year of the era to get the year of the Gregorian
    /// calendar.
    pub fn to_offset(&self) -> (r: i32)
        ensures
            r == self.offset(),
    {
        match self {
            Era::Reiwa => 2018,
            Era::Heisei => 1988,
            Era::Showa => 1925,
            Era::Taisho => 1911,
            Era::Meiji => 1867,
        }
    }
}

/// The era that `s` begins with and how many characters name it: a Latin
/// letter in either case, the era's square sign, or its name in two kanji.
pub open spec fn era_mark(s: Seq<char>) -> Option<(Era, nat)> {
    if s.len() >= 1 && (s[0] == 'R' || s[0] == 'r' || s[0] == '㋿') {
        Some((Era::Reiwa, 1))
    } else if s.len() >= 1 && (s[0] == 'H' || s[0] == 'h' || s[0] == '㍻') {
        Some((Era::Heisei, 1))
    } else if s.len() >= 1 && (s[0] == 'S' || s[0] == 's' || s[0] == '㍼') {
        Some((Era::Showa, 1))
    } else if s.len() >= 1 && (s[0] == 'T' || s[0] == 't' || s[0] == '㍽') {
        Some((Era::Taisho, 1))
    } else if s.len() >= 1 && (s[0] == 'M' || s[0] == 'm' || s[0] == '㍾') {
        Some((Era::Meiji, 1))
    } else if s.len() >= 2 && s[0] == '令' && s[1] == '和' {
        Some((Era::Reiwa, 2))
    } else if s.len() >= 2 && s[0] == '平' && s[1] == '成' {
        Some((Era::Heisei, 2))
    } else if s.len() >= 2 && s[0] == '昭' && s[1] == '和' {
        Some((Era::Showa, 2))
    } else if s.len() >= 2 && s[0] == '大' && s[1] == '正' {
        Some((Era::Taisho, 2))
    } else if s.len() >= 2 && s[0] == '明' && s[1] == '治' {
        Some((Era::Meiji, 2))
    } else {
        None
    }
}

/// The era that `v` begins with, see [`era_mark`].
fn read_era_mark(v: &Vec<char>) -> (r: Option<(Era, usize)>)
    ensures
        match r {
            Some((era, k)) => era_mark(v@) == Some((era, k as nat)) && 1 <= k <= v.len(),
            None => era_mark(v@) is None,
        },
{
    if v.len() >= 1 && (v[0] == 'R' || v[0] == 'r' || v[0] == '㋿') {
        Some((Era::Reiwa, 1))
    } else if v.len() >= 1 && (v[0] == 'H' || v[0] == 'h' || v[0] == '㍻') {
        Some((Era::Heisei, 1))
    } else if v.len() >= 1 && (v[0] == 'S' || v[0] == 's' || v[0] == '㍼') {
        Some((Era::Showa, 1))
    } else if v.len() >= 1 && (v[0] == 'T' || v[0] == 't' || v[0] == '㍽') {
        Some((Era::Taisho, 1))
    } else if v.len() >= 1 && (v[0] == 'M' || v[0] == 'm' || v[0] == '㍾') {
        Some((Era::Meiji, 1))
    } else if v.len() >= 2 && v[0] == '令' && v[1] == '和' {
        Some((Era::Reiwa, 2))
    } else if v.len() >= 2 && v[0] == '平' && v[1] == '成' {
        Some((Era::Heisei, 2))
    } else if v.len() >= 2 && v[0] == '昭' && v[1] == '和' {
        Some((Era::Showa, 2))
    } else if v.len() >= 2 && v[0] == '大' && v[1] == '正' {
        Some((Era::Taisho, 2))
    } else if v.len() >= 2 && v[0] == '明' && v[1] == '治' {
        Some((Era::Meiji, 2))
    } else {
        None
    }
}

/// A year of an era.
#[derive(Debug, Clone, Copy, PartialEq, Eq, Hash, Structural)]
pub enum GengoYear {
    /// 令和
    Reiwa(i32),
    /// 平成
    Heisei(i32),
    /// 昭和
    Showa(i32),
    /// 大正
    Taisho(i32),
    /// 明治
    Meiji(i32),
}

impl GengoYear {
    /// The era.
    pub open spec fn era(self) -> Era {
        match self {
            GengoYear::Reiwa(_) => Era::Reiwa,
            GengoYear::Heisei(_) => Era::Heisei,
            GengoYear::Showa(_) => Era::Showa,
            GengoYear::Taisho(_) => Era::Taisho,
            GengoYear::Meiji(_) => Era::Meiji,
        }
    }

    /// The year within the era.
    pub open spec fn year(self) -> i32 {
        match self {
            GengoYear::Reiwa(y) => y,
            GengoYear::Heisei(y) => y,
            GengoYear::Showa(y) => y,
            GengoYear::Taisho(y) => y,
            GengoYear::Meiji(y) => y,
        }
    }

    /// The year `year` of `era`.
    pub open spec fn of(era: Era, year: i32) -> GengoYear {
        match era {
            Era::Reiwa => GengoYear::Reiwa(year),
            Era::Heisei => GengoYear::Heisei(year),
            Era::Showa => GengoYear::Showa(year),
            Era::Taisho => GengoYear::Taisho(year),
            Era::Meiji => GengoYear::Meiji(year),
        }
    }

    /// The code in a file: the era's letter and the year in two digits.
    pub open spec fn code(self) -> Seq<char> {
        seq![self.era().letter()] + signed_padded(self.year() as int, 2)
    }

    /// How the year within the era is written for a reader: the first year
    /// is 元.
    pub open spec fn year_text(self) -> Seq<char> {
        if self.year() == 1 {
            "元"@
        } else {
            signed_padded(self.year() as int, 0)
        }
    }

    /// The year for a reader: the era's name, the year, and 年.
    pub open spec fn label(self) -> Seq<char> {
        self.era().name() + self.year_text() + "年"@
    }

    /// The year that stands between the era's mark and the end of a text:
    /// 元 or digits.
    pub open spec fn spec_year_from(era: Era, body: Seq<char>, whole: Seq<char>) -> Result<
        GengoYear,
        ErrorView,
    > {
        if body == seq!['元'] {
            Ok(Self::of(era, 1))
        } else if body.len() >= 1 && all_digits(body) {
            match signed_text(body) {
                Some(y) => if i32::MIN <= y <= i32::MAX {
                    Ok(Self::of(era, y as i32))
                } else {
                    Err(parse_int_error())
                },
                None => Err(parse_int_error()),
            }
        } else {
            Err(invalid_argument("Cannot convert str to GengoYear, got \""@ + whole + "\""@))
        }
    }

    /// What reading the text `s` gives: the mark of an era, then 元 or
    /// digits, then 年 or nothing.
    pub open spec fn spec_from_str(s: Seq<char>) -> Result<GengoYear, ErrorView> {
        match era_mark(s) {
            None => Err(invalid_argument("Cannot convert str to GengoYear, got \""@ + s + "\""@)),
            Some((era, k)) => {
                let rest = s.skip(k as int);
                let body = if rest.len() >= 1 && rest.last() == '年' {
                    rest.drop_last()
                } else {
                    rest
                };
                Self::spec_year_from(era, body, s)
            },
        }
    }

    /// The era and the year within it.
    pub fn parts(&self) -> (r: (Era, i32))
        ensures
            r.0 == self.era(),
            r.1 == self.year(),
    {
        match self {
            GengoYear::Reiwa(y) => (Era::Reiwa, *y),
            GengoYear::Heisei(y) => (Era::Heisei, *y),
            GengoYear::Showa(y) => (Era::Showa, *y),
            GengoYear::Taisho(y) => (Era::Taisho, *y),
            GengoYear::Meiji(y) => (Era::Meiji, *y),
        }
    }

    /// The year `year` of `era`.
    pub fn from_parts(era: Era, year: i32) -> (r: GengoYear)
        ensures
            r == Self::of(era, year),
            r.era() == era,
            r.year() == year,
    {
        match era {
            Era::Reiwa => GengoYear::Reiwa(year),
            Era::Heisei => GengoYear::Heisei(year),
            Era::Showa => GengoYear::Showa(year),
            Era::Taisho => GengoYear::Taisho(year),
            Era::Meiji => GengoYear::Meiji(year),
        }
    }

    /// The code in a file.
    pub fn to_code(&self) -> (r: String)
        ensures
            r@ == self.code(),
    {
        let (era, year) = self.parts();
        let mut r = String::new();
        r.push(era.to_letter());
        let digits = signed_padded_string(year as i64, 2);
        r.append(digits.as_str());
        assert(r@ =~= self.code());
        r
    }

    /// The year for a reader.
    pub fn to_string(&self) -> (r: String)
        ensures
            r@ == self.label(),
    {
        let (era, year) = self.parts();
        let mut r = era.to_name().to_owned();
        if year == 1 {
            r.append("元");
        } else {
            let digits = signed_padded_string(year as i64, 0);
            r.append(digits.as_str());
        }
        r.append("年");
        r
    }
}

impl FromStr for GengoYear {
    type Err = Error;

    /// Reads a year of an era, such as `R02`, `令和2年` or `平成元年`.
    fn from_str(s: &str) -> (r: Result<Self, Self::Err>)
        ensures
            plain_outcome(r) == Self::spec_from_str(s@),
    {
        let v = chars_of(s);
        match read_era_mark(&v) {
            None => Err(
                Error::InvalidArgument(framed("Cannot convert str to GengoYear, got \"", s, "\"")),
            ),
            Some((era, k)) => {
                let mut end = v.len();
                if end > k && v[end - 1] == '年' {
                    end = end - 1;
                }
                let body = string_of(&v, k, end);
                proof {
                    let rest = s@.skip(k as int);
                    if rest.len() >= 1 && rest.last() == '年' {
                        assert(body@ =~= rest.drop_last());
                    } else {
                        assert(body@ =~= rest);
                    }
                }
                if end == k + 1 && v[k] == '元' {
                    assert(body@ =~= seq!['元']);
                    Ok(GengoYear::from_parts(era, 1))
                } else if end > k && is_all_digits(body.as_str()) {
                    assert(body@ != seq!['元']) by {
                        if body@.len() == 1 {
                            assert(body@[0] == v[k as int]);
                            assert(seq!['元'][0] == '元');
                        }
                    }
                    match parse_i32(body.as_str()) {
                        Ok(year) => Ok(GengoYear::from_parts(era, year)),
                        Err(e) => Err(Error::ParseIntError(e)),
                    }
                } else {
                    assert(body@ != seq!['元']) by {
                        if body@.len() == 1 {
                            assert(body@[0] == v[k as int]);
                            assert(seq!['元'][0] == '元');
                        }
                    }
                    Err(
                        Error::InvalidArgument(
                            framed("Cannot convert str to GengoYear, got \"", s, "\""),
                        ),
                    )
                }
            },
        }
    }
}

/// Whether a year of an era can be written in the two digits that a code
/// has for it.
pub open spec fn is_two_digit_year(g: GengoYear) -> bool {
    0 <= g.year() <= 99
}

/// A year of an era that fits two digits, written as its code, reads back
/// as itself.
pub proof fn lemma_gengo_year_round_trip(g: GengoYear)
    requires
        is_two_digit_year(g),
    ensures
        GengoYear::spec_from_str(g.code()) == Ok::<GengoYear, ErrorView>(g),
        g.code().len() == 3,
        g.code()[0] == g.era().letter(),
        g.code().skip(1) == padded(g.year() as nat, 2),
        all_ascii_digits(g.code().skip(1)),
        decimal_value(g.code().skip(1)) == g.year(),
{
    let s = g.code();
    let digits = padded(g.year() as nat, 2);
    reveal_with_fuel(pow10, 3);
    lemma_padded_round_trip(g.year() as nat, 2);
    assert(s.skip(1) =~= digits);
    assert(s[0] == g.era().letter());
    assert(era_mark(s) == Some((g.era(), 1nat)));
    let rest = s.skip(1);
    assert(is_ascii_digit(rest[1]));
    assert(rest.last() != '年');
    assert(rest != seq!['元']) by {
        assert(rest.len() == 2);
        assert(seq!['元'].len() == 1);
    }
    assert(all_digits(rest)) by {
        assert forall|i: int| 0 <= i < rest.len() implies digit_class(#[trigger] rest[i]) by {
            assert(is_ascii_digit(rest[i]));
        }
    }
    assert(rest[0] != '-' && rest[0] != '+') by {
        assert(is_ascii_digit(rest[0]));
    }
    assert(GengoYear::of(g.era(), g.year()) == g);
}

} // verus!
