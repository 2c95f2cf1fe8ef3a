use gspice::text::{
    check_numeric, contains_str, fmt_i16, fmt_i32, fmt_u64, parse_i16, parse_i32, replace_all,
    split_char, split_lines, split_ws, str_eq, str_le,
};
use gspice::unit::{UnitOfMagnitude, UnitOfMagnitudeError};
use gspice::units::{Capacitance, Frequency, Resistance, Unit, Voltage};

fn s(t: &str) -> String {
    String::from(t)
}

#[test]
fn decimal_rendering() {
    assert_eq!(fmt_u64(0), "0");
    assert_eq!(fmt_u64(907), "907");
    assert_eq!(fmt_i32(-42), "-42");
    assert_eq!(fmt_i32(2147483647), "2147483647");
    assert_eq!(fmt_i32(-2147483648), "-2147483648");
    assert_eq!(fmt_i16(-7), "-7");
}

#[test]
fn integer_reading() {
    assert_eq!(parse_i32("123"), Some(123));
    assert_eq!(parse_i32("-45"), Some(-45));
    assert_eq!(parse_i32("+6"), Some(6));
    assert_eq!(parse_i32("2147483647"), Some(2147483647));
    assert_eq!(parse_i32("2147483648"), None);
    assert_eq!(parse_i32("-2147483648"), Some(-2147483648));
    assert_eq!(parse_i32(""), None);
    assert_eq!(parse_i32("12a"), None);
    assert_eq!(parse_i16("-32768"), Some(-32768));
    assert_eq!(parse_i16("32768"), None);
}

#[test]
fn numeric_grammar() {
    assert!(check_numeric("4.7"));
    assert!(check_numeric("-0.5"));
    assert!(check_numeric("+3."));
    assert!(check_numeric(".5"));
    assert!(check_numeric("1e3"));
    assert!(check_numeric("2.5E-9"));
    assert!(!check_numeric(""));
    assert!(!check_numeric("."));
    assert!(!check_numeric("1.2.3"));
    assert!(!check_numeric("1e"));
    assert!(!check_numeric("abc"));
    assert!(!check_numeric("1k"));
}

#[test]
fn searching_and_replacing() {
    assert!(contains_str("tran: 52%", "tran"));
    assert!(!contains_str("short", "longer needle"));
    assert_eq!(replace_all("a%b%%c", "%", ""), "abc");
    assert_eq!(replace_all("tran: 52", "tran: ", ""), "52");
    assert_eq!(replace_all("aaa", "aa", "b"), "ba");
    assert!(str_eq("same", "same"));
    assert!(!str_eq("same", "Same"));
    assert!(str_le("a", "b"));
    assert!(str_le("ab", "abc"));
    assert!(!str_le("b", "ab"));
}

#[test]
fn splitting() {
    let t = split_ws("  one  two\tthree ");
    assert_eq!(t, vec![s("one"), s("two"), s("three")]);
    let f = split_char("a 1 2", ' ');
    assert_eq!(f, vec![s("a"), s("1"), s("2")]);
    let f2 = split_char("", ' ');
    assert_eq!(f2, vec![s("")]);
    let lines = split_lines("first\nsecond\n");
    assert_eq!(lines, vec![s("first"), s("second")]);
    let lines2 = split_lines("first\n\nthird");
    assert_eq!(lines2, vec![s("first"), s(""), s("third")]);
}

#[test]
fn unit_parsing_picks_the_most_specific_suffix() {
    assert!(matches!(UnitOfMagnitude::from(s("4.7K")), Ok(UnitOfMagnitude::Kilo(v)) if v == "4.7"));
    assert!(matches!(UnitOfMagnitude::from(s("100n")), Ok(UnitOfMagnitude::Nano(v)) if v == "100"));
    assert!(matches!(UnitOfMagnitude::from(s("3Meg")), Ok(UnitOfMagnitude::Mega(v)) if v == "3"));
    assert!(matches!(UnitOfMagnitude::from(s("10MEG")), Ok(UnitOfMagnitude::Mega(v)) if v == "10"));
    assert!(matches!(UnitOfMagnitude::from(s("5mil")), Ok(UnitOfMagnitude::Mil(v)) if v == "5"));
    assert!(matches!(UnitOfMagnitude::from(s("5m")), Ok(UnitOfMagnitude::Mili(v)) if v == "5"));
    assert!(matches!(UnitOfMagnitude::from(s("-2.5u")), Ok(UnitOfMagnitude::Micro(v)) if v == "-2.5"));
    assert!(matches!(UnitOfMagnitude::from(s("8p")), Ok(UnitOfMagnitude::Pico(v)) if v == "8"));
    assert!(matches!(UnitOfMagnitude::from(s("1f")), Ok(UnitOfMagnitude::Femto(v)) if v == "1"));
    assert!(matches!(UnitOfMagnitude::from(s("2T")), Ok(UnitOfMagnitude::Tera(v)) if v == "2"));
    assert!(matches!(UnitOfMagnitude::from(s("2g")), Ok(UnitOfMagnitude::Giga(v)) if v == "2"));
    assert!(matches!(UnitOfMagnitude::from(s("1e3")), Ok(UnitOfMagnitude::Base(v)) if v == "1e3"));
}

#[test]
fn unit_rejects_invalid_input() {
    assert!(matches!(
        UnitOfMagnitude::from(s("abc")),
        Err(UnitOfMagnitudeError::InvalidUnitOfMagnitude)
    ));
    assert!(matches!(
        UnitOfMagnitude::from(s("")),
        Err(UnitOfMagnitudeError::InvalidUnitOfMagnitude)
    ));
    assert!(matches!(
        UnitOfMagnitude::from(s("k10")),
        Err(UnitOfMagnitudeError::InvalidUnitOfMagnitude)
    ));
    assert!(matches!(
        UnitOfMagnitude::from(s("1.2.3u")),
        Err(UnitOfMagnitudeError::InvalidUnitOfMagnitude)
    ));
}

#[test]
fn unit_round_trip_over_every_prefix() {
    let values = [
        UnitOfMagnitude::Tera(s("2.5")),
        UnitOfMagnitude::Giga(s("2.5")),
        UnitOfMagnitude::Mega(s("2.5")),
        UnitOfMagnitude::Kilo(s("2.5")),
        UnitOfMagnitude::Mil(s("2.5")),
        UnitOfMagnitude::Mili(s("2.5")),
        UnitOfMagnitude::Micro(s("2.5")),
        UnitOfMagnitude::Nano(s("2.5")),
        UnitOfMagnitude::Pico(s("2.5")),
        UnitOfMagnitude::Femto(s("2.5")),
        UnitOfMagnitude::Base(s("2.5")),
    ];
    for v in values {
        let text = v.format();
        let back = UnitOfMagnitude::from(text.clone()).unwrap();
        assert_eq!(back.format(), text);
    }
}

#[test]
fn unit_formatting() {
    assert_eq!(UnitOfMagnitude::Kilo(s("4.7")).format(), "4.7K");
    assert_eq!(UnitOfMagnitude::Mega(s("10")).format(), "10Meg");
    assert_eq!(UnitOfMagnitude::Mil(s("5")).format(), "5mil");
    assert_eq!(UnitOfMagnitude::Base(s("0.02")).format(), "0.02");
}

#[test]
fn quantity_wrappers_render_their_base() {
    assert_eq!(Frequency::new(50).format(), "50");
    assert_eq!(Resistance::new(-3).format(), "-3");
    assert_eq!(Voltage::new(0).format(), "0");
    assert_eq!(Capacitance::new(12).format(), "12");
}
