use chrono::NaiveDate;
use fast_parser::calendar::{
    parse_current_date_fast, parse_yyyymmdd_branchless, Date, DateError, MAX_YEAR, MIN_YEAR,
};

#[test]
fn parses_a_plain_date() {
    let date = parse_yyyymmdd_branchless(20231117).unwrap();
    assert_eq!(date.year(), 2023);
    assert_eq!(date.month(), 11);
    assert_eq!(date.day(), 17);
}

#[test]
fn rejects_month_and_day_out_of_range() {
    assert!(parse_yyyymmdd_branchless(20230017).is_none());
    assert!(parse_yyyymmdd_branchless(20231317).is_none());
    assert!(parse_yyyymmdd_branchless(20231100).is_none());
    assert!(parse_yyyymmdd_branchless(20231132).is_none());
    assert!(parse_yyyymmdd_branchless(0).is_none());
}

#[test]
fn rejects_days_that_the_month_lacks() {
    assert!(parse_yyyymmdd_branchless(20230230).is_none());
    assert!(parse_yyyymmdd_branchless(20230229).is_none());
    assert!(parse_yyyymmdd_branchless(20240229).is_some());
    assert!(parse_yyyymmdd_branchless(19000229).is_none());
    assert!(parse_yyyymmdd_branchless(20000229).is_some());
    assert!(parse_yyyymmdd_branchless(20230431).is_none());
    assert!(parse_yyyymmdd_branchless(20230430).is_some());
}

#[test]
fn rejects_years_beyond_the_range_of_dates() {
    assert_eq!(MAX_YEAR, 262142);
    assert_eq!(MIN_YEAR, -262143);
    assert!(parse_yyyymmdd_branchless(2621421231).is_some());
    assert!(parse_yyyymmdd_branchless(2621430101).is_none());
    assert!(parse_yyyymmdd_branchless(u32::MAX).is_none());
    assert!(Date::from_ymd_opt(262142, 12, 31).is_some());
    assert!(Date::from_ymd_opt(262143, 1, 1).is_none());
    assert!(Date::from_ymd_opt(-262143, 1, 1).is_some());
    assert!(Date::from_ymd_opt(-262144, 12, 31).is_none());
}

#[test]
fn validity_agrees_with_chrono_over_a_decade() {
    for year in 1995u32..2031 {
        for month in 0u32..14 {
            for day in 0u32..33 {
                let n = year * 10000 + month * 100 + day;
                let expected = NaiveDate::from_ymd_opt(year as i32, month, day).is_some();
                assert_eq!(parse_yyyymmdd_branchless(n).is_some(), expected, "{}", n);
            }
        }
    }
}

#[test]
fn counts_the_days_between_two_dates() {
    let later = parse_yyyymmdd_branchless(20231117).unwrap();
    let earlier = parse_yyyymmdd_branchless(20231110).unwrap();
    assert_eq!(later.days_since(&earlier), 7);
    assert_eq!(earlier.days_since(&later), -7);
    assert_eq!(later.days_since(&later), 0);
    let a = parse_yyyymmdd_branchless(20240301).unwrap();
    let b = parse_yyyymmdd_branchless(20240228).unwrap();
    assert_eq!(a.days_since(&b), 2);
    let c = parse_yyyymmdd_branchless(20140101).unwrap();
    let d = parse_yyyymmdd_branchless(16140101).unwrap();
    assert_eq!(c.days_since(&d), 365 * 400 + 97);
}

#[test]
fn counts_days_across_the_year_one() {
    let after = Date::from_ymd_opt(1, 1, 1).unwrap();
    let before = Date::from_ymd_opt(0, 12, 31).unwrap();
    assert_eq!(after.days_since(&before), 1);
    let leap = Date::from_ymd_opt(-4, 2, 29).unwrap();
    let next = Date::from_ymd_opt(-4, 3, 1).unwrap();
    assert_eq!(next.days_since(&leap), 1);
    let first = Date::from_ymd_opt(MIN_YEAR, 1, 1).unwrap();
    let last = Date::from_ymd_opt(MAX_YEAR, 12, 31).unwrap();
    assert_eq!(last.days_since(&first), 191_491_528);
}

/// Day number as the library's contract states it.
fn day_number(year: i64, month: i64, day: i64) -> i64 {
    let y = year - 1;
    let leap = year.rem_euclid(4) == 0 && (year.rem_euclid(100) != 0 || year.rem_euclid(400) == 0);
    let before = [0, 31, 59, 90, 120, 151, 181, 212, 243, 273, 304, 334][(month - 1) as usize];
    let shift = if month > 2 && leap { 1 } else { 0 };
    365 * y + y.div_euclid(4) - y.div_euclid(100) + y.div_euclid(400) + before + shift + day
}

#[test]
fn day_numbers_agree_with_chrono() {
    let anchor = Date::from_ymd_opt(2000, 1, 1).unwrap();
    let years = [-262143, -401, -400, -100, -4, -1, 0, 1, 4, 100, 1600, 1900, 1999, 2000, 2023,
        2024, 2100, 2400, 262142];
    for year in years {
        for month in 1u32..13 {
            for day in [1u32, 15, 28, 29, 30, 31] {
                if let Some(date) = Date::from_ymd_opt(year, month, day) {
                    let expected = day_number(year as i64, month as i64, day as i64)
                        - day_number(2000, 1, 1);
                    assert_eq!(date.days_since(&anchor), expected, "{}-{}-{}", year, month, day);
                    let there = NaiveDate::from_ymd_opt(year, month, day).unwrap();
                    let here = NaiveDate::from_ymd_opt(2000, 1, 1).unwrap();
                    assert_eq!(expected, there.signed_duration_since(here).num_days());
                }
            }
        }
    }
}

#[test]
fn as_of_date_is_parsed() {
    let date = parse_current_date_fast(20231110).ok().unwrap();
    assert_eq!((date.year(), date.month(), date.day()), (2023, 11, 10));
}

#[test]
fn as_of_date_with_bad_month_or_day_is_a_format_error() {
    assert_eq!(parse_current_date_fast(20230010).err(), Some(DateError::InvalidFormat(20230010)));
    assert_eq!(parse_current_date_fast(20231310).err(), Some(DateError::InvalidFormat(20231310)));
    assert_eq!(parse_current_date_fast(20231100).err(), Some(DateError::InvalidFormat(20231100)));
    assert_eq!(parse_current_date_fast(20231132).err(), Some(DateError::InvalidFormat(20231132)));
}

#[test]
fn as_of_date_that_does_not_exist_is_a_date_error() {
    assert_eq!(parse_current_date_fast(20230230).err(), Some(DateError::InvalidDate(20230230)));
    assert_eq!(parse_current_date_fast(20230431).err(), Some(DateError::InvalidDate(20230431)));
    assert_eq!(
        parse_current_date_fast(2621430101).err(),
        Some(DateError::InvalidDate(2621430101))
    );
}
