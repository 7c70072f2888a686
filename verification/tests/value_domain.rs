use chrono::Datelike;
use jahis::codes::{DosageForm, DrugCodeType, FeeTable, Gender, UsageCodeType};
use jahis::date::Date;
use jahis::error::Error;
use jahis::gengo::{Era, GengoYear};
use jahis::prefecture::Prefecture;
use std::str::FromStr;

#[test]
fn gengo_year_round_trip() {
    let g = GengoYear::from_str("令和2年").unwrap();
    assert_eq!(g, GengoYear::Reiwa(2));
    assert_eq!(g.to_code(), "R02");
    assert_eq!(g.to_string(), "令和2年");
    let first = "令和元年".parse::<GengoYear>().unwrap();
    assert_eq!(first, GengoYear::Reiwa(1));
    assert_eq!(first.to_string(), "令和元年");
}

#[test]
fn era_transitions() {
    let code =
        |y: i32, m: u32, d: u32| Date::Seireki { year: y, month: m, day: d }.try_to_wareki7();
    assert_eq!(code(1989, 1, 7), Ok("S640107".to_string()));
    assert_eq!(code(1989, 1, 8), Ok("H010108".to_string()));
    assert_eq!(code(2019, 4, 30), Ok("H310430".to_string()));
    assert_eq!(code(2019, 5, 1), Ok("R010501".to_string()));
    assert!(matches!(code(1872, 12, 31), Err(Error::InvalidArgument(_))));
}

#[test]
fn prefecture_spellings() {
    for s in ["13", "JP-13", "東京", "東京都", "Tokyo"] {
        assert_eq!(Prefecture::from_str(s), Ok(Prefecture::Tokyo));
    }
    assert_eq!(Prefecture::Tokyo.to_code(), "13");
    assert_eq!(Prefecture::try_from(13u32), Ok(Prefecture::Tokyo));
    assert!(matches!(Prefecture::from_str("48"), Err(Error::InvalidArgument(_))));
}

#[test]
fn errors_have_a_kind_and_quote_what_was_read() {
    let e = Gender::from_str("x").unwrap_err();
    assert_eq!(e.kind(), jahis::ErrorKind::InvalidArgument);
    assert_eq!(e, Error::InvalidArgument("Cannot convert str to Gender, got \"x\"".to_string()));
    assert_eq!(e.clone(), e);
    let e = Gender::try_from(7u32).unwrap_err();
    assert_eq!(e, Error::InvalidArgument("Cannot convert u32 to Gender, got \"7\"".to_string()));
    let e = GengoYear::from_str("R99999999999").unwrap_err();
    assert_eq!(e.kind(), jahis::ErrorKind::ParseIntError);
    assert_eq!(e, Error::ParseIntError("99999999999".parse::<i32>().unwrap_err()));
}

#[test]
fn gender_codes() {
    assert_eq!(Gender::from_str("1"), Ok(Gender::Male));
    assert_eq!("女".parse::<Gender>(), Ok(Gender::Female));
    assert_eq!(Gender::Female.to_code(), "2");
    assert!(matches!(Gender::from_str("01"), Err(Error::InvalidArgument(_))));
}

#[test]
fn date_codes() {
    let d = Date::from_str("20190501").unwrap();
    assert_eq!(d, Date::Seireki { year: 2019, month: 5, day: 1 });
    assert_eq!(d.to_code(), "20190501");
    assert_eq!(d.to_seireki8(), "20190501");
    assert_eq!(d.to_string(), "2019年5月1日");
    let w = Date::from_str("R010501").unwrap();
    assert_eq!(w, Date::Wareki { gengo_year: GengoYear::Reiwa(1), month: 5, day: 1 });
    assert_eq!(w.to_code(), "R010501");
    assert_eq!(w.to_seireki8(), "20190501");
    assert_eq!(w.try_to_wareki7(), Ok("R010501".to_string()));
    assert_eq!(w.to_string(), "令和元年5月1日");
    for (code, seireki) in [
        ("H010108", "19890108"),
        ("S011225", "19261225"),
        ("T010730", "19120730"),
        ("M010101", "18680101"),
        ("M450729", "19120729"),
    ] {
        assert_eq!(Date::from_str(code).unwrap().to_seireki8(), seireki);
    }
    for bad in [
        "",
        "2019051",
        "201905011",
        "2019-5-1",
        "r010501",
        "X010501",
        "R01050",
        "２０１９０５０１",
        "202001",
    ] {
        assert!(matches!(Date::from_str(bad), Err(Error::InvalidArgument(_))), "{}", bad);
    }
}

#[test]
fn date_codes_follow_std_padding() {
    for y in [-12345, -5, 0, 7, 42, 999, 2020, 12345] {
        let d = Date::Seireki { year: y, month: 3, day: 14 };
        assert_eq!(d.to_code(), format!("{:>04}{:>02}{:>02}", y, 3, 14));
        let g = GengoYear::Heisei(y);
        assert_eq!(g.to_code(), format!("H{:>02}", y));
    }
    assert_eq!(GengoYear::Showa(-3).to_string(), "昭和-3年");
    assert_eq!(GengoYear::Meiji(45).to_string(), "明治45年");
}

#[test]
fn era_boundaries() {
    let era = |y: i32, m: u32, d: u32| {
        Date::Seireki { year: y, month: m, day: d }.try_to_wareki7().unwrap()
    };
    assert_eq!(era(1926, 12, 24), "T151224");
    assert_eq!(era(1926, 12, 25), "S011225");
    assert_eq!(era(1912, 7, 29), "M450729");
    assert_eq!(era(1912, 7, 30), "T010730");
    assert_eq!(era(1873, 1, 1), "M060101");
    assert_eq!(era(2118, 1, 1), "R1000101");
    let back = Date::from_str(&era(2024, 2, 29)).unwrap();
    assert_eq!(back.to_seireki8(), "20240229");
}

#[test]
fn gengo_year_spellings() {
    for s in ["R2", "r02", "㋿2", "令和2", "令和2年", "R2年"] {
        assert_eq!(GengoYear::from_str(s), Ok(GengoYear::Reiwa(2)), "{}", s);
    }
    assert_eq!(GengoYear::from_str("㍻元年"), Ok(GengoYear::Heisei(1)));
    assert_eq!(GengoYear::from_str("昭和64"), Ok(GengoYear::Showa(64)));
    assert_eq!(GengoYear::from_str("t15"), Ok(GengoYear::Taisho(15)));
    assert_eq!(GengoYear::from_str("明治元"), Ok(GengoYear::Meiji(1)));
    for bad in ["", "R", "R年", "X2", "令2", "R2年年", "R-2", "R+2", "R 2", "R元2"] {
        assert!(matches!(GengoYear::from_str(bad), Err(Error::InvalidArgument(_))), "{}", bad);
    }
    assert!(matches!(GengoYear::from_str("R99999999999"), Err(Error::ParseIntError(_))));
    assert!(matches!(GengoYear::from_str("R２"), Err(Error::ParseIntError(_))));
}

#[test]
fn calendar_dates() {
    let d = Date::Wareki { gengo_year: GengoYear::Reiwa(6), month: 2, day: 29 };
    assert!(d.exists_in_calendar());
    let n = d.to_naivedate();
    assert_eq!((n.year(), n.month(), n.day()), (2024, 2, 29));
    assert_eq!(Date::from(n), Date::Seireki { year: 2024, month: 2, day: 29 });
    for (y, m, day, ok) in [
        (2023, 2, 29, false),
        (2000, 2, 29, true),
        (1900, 2, 29, false),
        (2019, 4, 31, false),
        (2019, 13, 1, false),
        (2019, 0, 1, false),
        (2019, 1, 0, false),
        (-4, 2, 29, true),
        (262142, 12, 31, true),
        (262143, 1, 1, false),
        (-262143, 1, 1, true),
        (-262144, 12, 31, false),
    ] {
        let d = Date::Seireki { year: y, month: m, day };
        assert_eq!(d.exists_in_calendar(), ok, "{:?}", d);
        assert_eq!(d.try_to_naivedate().is_some(), ok, "{:?}", d);
        assert_eq!(chrono::NaiveDate::from_ymd_opt(y, m, day).is_some(), ok, "{:?}", d);
    }
}

#[test]
fn every_code_reads_back() {
    for n in 1u32..=47 {
        let p = Prefecture::try_from(n).unwrap();
        assert_eq!(p.to_code(), format!("{:>02}", n));
        assert_eq!(Prefecture::from_str(&p.to_code()), Ok(p));
        assert_eq!(Prefecture::from_str(&format!("JP-{:02}", n)), Ok(p));
        assert_eq!(Prefecture::from_str(&p.to_string()), Ok(p));
    }
    assert!(matches!(Prefecture::try_from(0u32), Err(Error::InvalidArgument(_))));
    assert!(matches!(Prefecture::try_from(48u32), Err(Error::InvalidArgument(_))));
    for n in 0u32..=100 {
        if let Ok(v) = FeeTable::try_from(n) {
            assert!([1, 3, 4].contains(&n));
            assert_eq!(v.to_code(), n.to_string());
            assert_eq!(FeeTable::from_str(&v.to_code()), Ok(v));
            assert_eq!(FeeTable::from_str(&v.to_string()), Ok(v));
        }
        if let Ok(v) = DosageForm::try_from(n) {
            assert!([1, 2, 3, 4, 5, 6, 7, 9, 10].contains(&n));
            assert_eq!(v.to_code(), n.to_string());
            assert_eq!(DosageForm::from_str(&v.to_code()), Ok(v));
            assert_eq!(DosageForm::from_str(&v.to_string()), Ok(v));
        }
        if let Ok(v) = DrugCodeType::try_from(n) {
            assert!([1, 2, 3, 4, 6].contains(&n));
            assert_eq!(DrugCodeType::from_str(&v.to_code()), Ok(v));
        }
        if let Ok(v) = UsageCodeType::try_from(n) {
            assert!([1, 2].contains(&n));
            assert_eq!(UsageCodeType::from_str(&v.to_code()), Ok(v));
        }
    }
    assert!(matches!(FeeTable::from_str("2"), Err(Error::InvalidArgument(_))));
    assert!(matches!(DosageForm::from_str("8"), Err(Error::InvalidArgument(_))));
    assert!(matches!(DrugCodeType::from_str("5"), Err(Error::InvalidArgument(_))));
    assert_eq!(DrugCodeType::from_str("MHLW"), Ok(DrugCodeType::Mhlw));
}

#[test]
fn eras() {
    for (era, letter, name, offset) in [
        (Era::Reiwa, 'R', "令和", 2018),
        (Era::Heisei, 'H', "平成", 1988),
        (Era::Showa, 'S', "昭和", 1925),
        (Era::Taisho, 'T', "大正", 1911),
        (Era::Meiji, 'M', "明治", 1867),
    ] {
        assert_eq!(era.to_letter(), letter);
        assert_eq!(Era::of_letter(letter), Some(era));
        assert_eq!(era.to_name(), name);
        assert_eq!(era.to_offset(), offset);
        let g = GengoYear::from_parts(era, 3);
        assert_eq!(g.parts(), (era, 3));
        let d = Date::Wareki { gengo_year: g, month: 1, day: 2 };
        assert_eq!(d.to_gregorian_year(), (offset + 3) as i64);
    }
    assert_eq!(Era::of_letter('r'), None);
    let far = Date::Wareki { gengo_year: GengoYear::Reiwa(i32::MAX), month: 1, day: 2 };
    assert_eq!(far.to_gregorian_year(), i32::MAX as i64 + 2018);
    assert_eq!(far.to_seireki8(), format!("{}0102", i32::MAX as i64 + 2018));
    assert!(!far.exists_in_calendar());
}
