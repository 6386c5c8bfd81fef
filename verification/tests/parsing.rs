use http_date::{CalendarTime, Error, HttpDate};

fn nov_07_fields() -> CalendarTime {
    CalendarTime {
        nsec: 0,
        sec: 37,
        min: 48,
        hour: 8,
        mday: 7,
        mon: 10,
        year: 94,
        wday: 0,
        isdst: 0,
        yday: 0,
        utcoff: 0,
    }
}

fn nov_07() -> HttpDate {
    HttpDate::new(nov_07_fields()).unwrap()
}

#[test]
fn test_imf_fixdate() {
    assert_eq!("Sun, 07 Nov 1994 08:48:37 GMT".parse::<HttpDate>().unwrap(), nov_07());
}

#[test]
fn test_rfc_850() {
    assert_eq!("Sunday, 07-Nov-94 08:48:37 GMT".parse::<HttpDate>().unwrap(), nov_07());
}

#[test]
fn test_asctime() {
    assert_eq!("Sun Nov  7 08:48:37 1994".parse::<HttpDate>().unwrap(), nov_07());
}

#[test]
fn test_no_date() {
    assert!("this-is-no-date".parse::<HttpDate>().is_err());
}

#[test]
fn three_forms_hold_the_same_fields() {
    let imf = HttpDate::parse("Sun, 07 Nov 1994 08:48:37 GMT").unwrap();
    let rfc = HttpDate::parse("Sunday, 07-Nov-94 08:48:37 GMT").unwrap();
    let asc = HttpDate::parse("Sun Nov  7 08:48:37 1994").unwrap();
    assert_eq!(imf.calendar(), nov_07_fields());
    assert_eq!(rfc.calendar(), nov_07_fields());
    assert_eq!(asc.calendar(), nov_07_fields());
    assert_eq!(imf, rfc);
    assert_eq!(rfc, asc);
    assert_eq!(imf, asc);
}

#[test]
fn no_date_is_a_malformed_header() {
    assert_eq!(HttpDate::parse("this-is-no-date"), Err(Error::Header));
    assert_eq!("this-is-no-date".parse::<HttpDate>(), Err(Error::Header));
    assert_eq!(HttpDate::parse(""), Err(Error::Header));
}

#[test]
fn parse_and_from_str_agree() {
    for text in [
        "Sun, 06 Nov 1994 08:49:37 GMT",
        "Sunday, 06-Nov-94 08:49:37 GMT",
        "Sun Nov  6 08:49:37 1994",
        "Sun, 06 Nov 1994",
        "06 Nov 1994 08:49:37 GMT",
    ] {
        let a = HttpDate::parse(text).map(|d| d.calendar());
        let b = text.parse::<HttpDate>().map(|d| d.calendar());
        assert_eq!(a, b);
    }
}

#[test]
fn parsed_fields_are_those_of_the_text() {
    let date = HttpDate::parse("Tue, 29 Feb 2000 12:00:00 GMT").unwrap();
    let tm = date.calendar();
    assert_eq!(tm.wday, 2);
    assert_eq!(tm.mday, 29);
    assert_eq!(tm.mon, 1);
    assert_eq!(tm.year, 100);
    assert_eq!(tm.hour, 12);
    assert_eq!(tm.min, 0);
    assert_eq!(tm.sec, 0);
    assert_eq!(tm.nsec, 0);
    assert_eq!(tm.utcoff, 0);
}

#[test]
fn week_day_is_read_not_computed() {
    // The seventh of November 1994 was a Monday; the text says Sunday.
    let date = HttpDate::parse("Sun, 07 Nov 1994 08:48:37 GMT").unwrap();
    assert_eq!(date.calendar().wday, 0);
    let monday = HttpDate::parse("Mon, 07 Nov 1994 08:48:37 GMT").unwrap();
    assert_eq!(monday.calendar().wday, 1);
    assert_eq!(date, monday);
}

#[test]
fn two_digit_year_counts_from_1900() {
    let date = HttpDate::parse("Sunday, 06-Nov-05 08:49:37 GMT").unwrap();
    assert_eq!(date.calendar().year, 5);
    assert_eq!(date.to_string(), "Sun, 06 Nov 1905 08:49:37 GMT");
}

#[test]
fn asctime_takes_a_two_digit_day() {
    let date = HttpDate::parse("Thu Nov 17 08:48:37 1994").unwrap();
    assert_eq!(date.calendar().mday, 17);
    assert_eq!(date.calendar().wday, 4);
}

#[test]
fn out_of_range_fields_are_refused() {
    assert_eq!(HttpDate::parse("Sun, 32 Nov 1994 08:48:37 GMT"), Err(Error::Header));
    assert_eq!(HttpDate::parse("Sun, 07 Nov 1994 24:48:37 GMT"), Err(Error::Header));
    assert_eq!(HttpDate::parse("Sun, 07 Nov 1994 08:60:37 GMT"), Err(Error::Header));
    assert_eq!(HttpDate::parse("Sun, 07 Nov 1994 08:48:61 GMT"), Err(Error::Header));
    assert_eq!(HttpDate::parse("Sun, 07 Foo 1994 08:48:37 GMT"), Err(Error::Header));
    assert_eq!(HttpDate::parse("Xyz, 07 Nov 1994 08:48:37 GMT"), Err(Error::Header));
}

#[test]
fn calendar_consistency_is_not_asked() {
    let date = HttpDate::parse("Sun, 31 Feb 1994 00:00:00 GMT").unwrap();
    assert_eq!(date.calendar().mday, 31);
    assert_eq!(date.calendar().mon, 1);
    assert_eq!(date.to_string(), "Sun, 31 Feb 1994 00:00:00 GMT");
    // The instant is that of the third of March.
    assert_eq!(date.to_timespec().sec, 762652800);
}

#[test]
fn first_attempt_that_matched_decides() {
    let a = nov_07_fields();
    let mut b = nov_07_fields();
    b.mday = 8;
    let mut c = nov_07_fields();
    c.mday = 9;
    assert_eq!(HttpDate::from_attempts(Some(a), Some(b), Some(c)).unwrap().calendar(), a);
    assert_eq!(HttpDate::from_attempts(None, Some(b), Some(c)).unwrap().calendar(), b);
    assert_eq!(HttpDate::from_attempts(None, None, Some(c)).unwrap().calendar(), c);
    assert_eq!(HttpDate::from_attempts(None, None, None), Err(Error::Header));
}

#[test]
fn a_match_that_is_not_valid_ends_the_parse() {
    let good = nov_07_fields();
    let mut bad = nov_07_fields();
    bad.mon = 12;
    assert_eq!(HttpDate::from_attempts(Some(bad), Some(good), Some(good)), Err(Error::Header));
    assert_eq!(HttpDate::from_attempts(None, Some(bad), Some(good)), Err(Error::Header));
    assert_eq!(HttpDate::from_attempts(None, None, Some(bad)), Err(Error::Header));
}

#[test]
fn every_form_reads_a_valid_calendar_time() {
    for text in [
        "Sun, 06 Nov 1994 08:49:37 GMT",
        "Sunday, 06-Nov-94 08:49:37 GMT",
        "Sun Nov  6 08:49:37 1994",
        "Sat, 01 Jan 0000 00:00:00 GMT",
        "Fri, 31 Dec 9999 23:59:60 GMT",
        "Saturday, 31-Dec-99 23:59:60 GMT",
        "Monday, 01-Jan-00 00:00:00 GMT",
        "Fri Dec 31 23:59:60 9999",
        "Sat Jan  1 00:00:00 0000",
    ] {
        let tm = HttpDate::parse(text).unwrap().calendar();
        assert!(tm.is_valid());
        assert_eq!(tm.utcoff, 0);
        assert_eq!(tm.nsec, 0);
    }
}

#[test]
fn rfc_850_years_lie_in_the_twentieth_century() {
    for (text, year) in [
        ("Monday, 01-Jan-00 00:00:00 GMT", 0),
        ("Sunday, 06-Nov-94 08:49:37 GMT", 94),
        ("Saturday, 31-Dec-99 23:59:59 GMT", 99),
        ("Thursday, 01-Jan-70 00:00:00 GMT", 70),
        ("Friday, 01-Jan-38 00:00:00 GMT", 38),
    ] {
        let date = HttpDate::parse(text).unwrap();
        assert_eq!(date.calendar().year, year);
        assert!(0 <= date.calendar().year && date.calendar().year <= 99);
    }
    let date = HttpDate::parse("Friday, 01-Jan-38 00:00:00 GMT").unwrap();
    assert_eq!(date.to_string(), "Fri, 01 Jan 1938 00:00:00 GMT");
}
