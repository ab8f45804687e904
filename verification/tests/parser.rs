use timescan::fields::Fields;
use timescan::parser::{
    abbreviation, count_digits, is_ascii_digit, parse_timestamp, read_field, read_fields,
    read_item, read_month, reads, remainder, to_small,
};
use timescan::specifier::Specifier;
use timescan::template::{template_items, Item};
use timescan::text::chars_of;
use timescan::TimestampFinder;

fn parse(template: &str, text: &str) -> Option<i64> {
    parse_timestamp(&template_items(template), text)
}

#[test]
fn common_log_timestamp_is_parsed() {
    assert_eq!(parse("%d/%b/%Y:%H:%M:%S%.f", "23/Nov/2019:06:26:40.781"), Some(1574490400));
    assert_eq!(parse("%d/%b/%Y:%H:%M:%S%.f", "06/Jan/2006:13:04:05.000"), Some(1136552645));
    assert_eq!(parse("%d/%b/%Y:%H:%M:%S%.f", "6/jan/2006:13:4:5.0"), Some(1136552645));
}

#[test]
fn fraction_is_dropped() {
    assert_eq!(parse("%S%.f", "40.999999999999"), Some(40));
    assert_eq!(parse("%S%.f", "40.0"), Some(40));
    assert_eq!(parse("%S%.f", "40."), None);
    assert_eq!(parse("%S%.f", "40"), None);
    assert_eq!(parse("%S%.f", "40,5"), None);
}

#[test]
fn epoch_seconds_are_taken_as_they_stand() {
    assert_eq!(parse("%s", "1621568291"), Some(1621568291));
    assert_eq!(parse("%s", "1234567"), Some(1234567));
    assert_eq!(parse("%s", "0"), Some(0));
    assert_eq!(parse("%s", "9999999999"), Some(9999999999));
    assert_eq!(parse("%s", "12345678901"), None);
    assert_eq!(parse("%s", ""), None);
    assert_eq!(parse("%s", "-5"), None);
}

#[test]
fn epoch_seconds_pass_by_the_calendar() {
    assert_eq!(parse("%s %d", "1234567 32"), Some(1234567));
    assert_eq!(parse("%d/%m %s", "31/02 77"), Some(77));
    assert_eq!(parse("%s %s", "5 5"), Some(5));
    assert_eq!(parse("%s %s", "5 6"), None);
}

#[test]
fn missing_fields_stand_at_the_epoch() {
    assert_eq!(parse("%Y-%m-%d", "2019-11-23"), Some(1574467200));
    assert_eq!(parse("%H:%M", "06:26"), Some(23160));
    assert_eq!(parse("%Y", "1999"), Some(915148800));
    assert_eq!(parse("%b", "May"), Some(10368000));
    assert_eq!(parse("%d", "23"), Some(1900800));
    assert_eq!(parse("%m", "2"), Some(2678400));
    assert_eq!(parse("", ""), Some(0));
    assert_eq!(parse("at", "at"), Some(0));
    assert_eq!(parse("%.f", ".5"), Some(0));
}

#[test]
fn calendar_invalid_values_are_rejected() {
    assert_eq!(parse("%d/%b/%Y:%H:%M:%S%.f", "32/Nov/2019:06:26:40.781"), None);
    assert_eq!(parse("%d/%b/%Y:%H:%M:%S%.f", "31/Nov/2019:06:26:40.781"), None);
    assert_eq!(parse("%d/%b/%Y:%H:%M:%S%.f", "00/Nov/2019:06:26:40.781"), None);
    assert_eq!(parse("%d/%b/%Y:%H:%M:%S%.f", "23/Nov/2019:24:26:40.781"), None);
    assert_eq!(parse("%d/%b/%Y:%H:%M:%S%.f", "23/Nov/2019:06:60:40.781"), None);
    assert_eq!(parse("%d/%b/%Y:%H:%M:%S%.f", "23/Nov/2019:06:26:61.781"), None);
    assert_eq!(parse("%d/%b/%Y:%H:%M:%S%.f", "23/Nox/2019:06:26:40.781"), None);
    assert_eq!(parse("%Y-%m-%d", "2019-13-01"), None);
    assert_eq!(parse("%Y-%m-%d", "2019-00-01"), None);
    assert_eq!(parse("%Y-%m-%d", "2019-02-29"), None);
    assert_eq!(parse("%Y-%m-%d", "1900-02-29"), None);
    assert_eq!(parse("%Y-%m-%d", "2000-02-29"), Some(951782400));
    assert_eq!(parse("%Y-%m-%d %H", "2024-02-29 12"), Some(1709208000));
    assert_eq!(parse("%d", "99"), None);
}

#[test]
fn leap_second_counts_as_the_second_before() {
    assert_eq!(parse("%H:%M:%S", "23:59:60"), Some(86399));
    assert_eq!(parse("%H:%M:%S", "23:59:59"), Some(86399));
    assert_eq!(parse("%Y-%m-%d %H:%M:%S", "2016-12-31 23:59:60"), Some(1483228799));
}

#[test]
fn years_in_their_several_forms() {
    assert_eq!(parse("%y", "69"), Some(3124224000));
    assert_eq!(parse("%y", "70"), Some(0));
    assert_eq!(parse("%y", "19"), Some(1546300800));
    assert_eq!(parse("%C%y", "1999"), Some(915148800));
    assert_eq!(parse("%C-%y", "19-19"), Some(-1609459200));
    assert_eq!(parse("%C", "19"), None);
    assert_eq!(parse("%Y %C %y", "1999 19 99"), Some(915148800));
    assert_eq!(parse("%Y %C", "1999 20"), None);
    assert_eq!(parse("%Y %y", "1999 98"), None);
    assert_eq!(parse("%Y", "1"), Some(-62135596800));
    assert_eq!(parse("%Y", "0"), Some(-62167219200));
    assert_eq!(parse("%Y-%m-%d %H:%M:%S", "9999-12-31 23:59:59"), Some(253402300799));
    assert_eq!(parse("%Y-%m-%d %H:%M:%S", "1969-12-31 23:59:59"), Some(-1));
    assert_eq!(parse("%Y-%m-%d", "1900-02-28"), Some(-2203977600));
}

#[test]
fn repeated_fields_must_agree() {
    assert_eq!(parse("%d %d", "23 23"), Some(1900800));
    assert_eq!(parse("%d %d", "23 24"), None);
    assert_eq!(parse("%m %b %B %h", "11 Nov November nov"), Some(28166400 - 22 * 86400));
    assert_eq!(parse("%m %b", "11 Dec"), None);
    assert_eq!(parse("%Y%Y", "20192019"), Some(1546300800));
}

#[test]
fn month_names() {
    let firsts: [i64; 12] = [0, 31, 59, 90, 120, 151, 181, 212, 243, 273, 304, 334];
    let names = [
        "January", "February", "March", "April", "May", "June", "July", "August", "September",
        "October", "November", "December",
    ];
    for (i, name) in names.iter().enumerate() {
        let expected = Some(firsts[i] * 86400);
        assert_eq!(parse("%B", name), expected);
        assert_eq!(parse("%B", &name.to_uppercase()), expected);
        assert_eq!(parse("%B", &name.to_lowercase()), expected);
        assert_eq!(parse("%B", &name[..3]), expected);
        assert_eq!(parse("%b", &name[..3]), expected);
        assert_eq!(parse("%h", &name[..3].to_lowercase()), expected);
        if name.len() > 3 {
            assert_eq!(parse("%b", name), None);
        }
        if name.len() > 4 {
            assert_eq!(parse("%B", &name[..name.len() - 1]), None);
        }
        assert_eq!(parse("%Bs", &format!("{}s", name)), expected);
    }
    assert_eq!(parse("%b", "No"), None);
    assert_eq!(parse("%b", "Nob"), None);
    assert_eq!(parse("%B", "Novembers"), None);
    assert_eq!(parse("%B%d", "Nov23"), Some(28166400));
}

#[test]
fn numbers_take_the_longest_run_they_can() {
    assert_eq!(parse("%H%M%S", "062640"), Some(23200));
    assert_eq!(parse("%H%M%S", "0626"), None);
    assert_eq!(parse("%Y%m%d", "20191123"), Some(1574467200));
    assert_eq!(parse("%Y%m%d", "2019111"), Some(1572566400));
    assert_eq!(parse("%d", "123"), None);
    assert_eq!(parse("%d", "x"), None);
    assert_eq!(parse("%d", "١٢"), None);
}

#[test]
fn text_must_conform_to_the_whole_template() {
    assert_eq!(parse("%H:%M", "06:26 "), None);
    assert_eq!(parse("%H:%M", " 06:26"), None);
    assert_eq!(parse("%H:%M", "06-26"), None);
    assert_eq!(parse("%H:%M", "06:"), None);
    assert_eq!(parse("%H:%M", ""), None);
    assert_eq!(parse("%Q%H", "%Q07"), Some(25200));
    assert_eq!(parse("%Q%H", "07"), None);
    assert_eq!(parse("é%H", "é07"), Some(25200));
}

#[test]
fn digits_are_counted_and_read() {
    let text = chars_of("ab12345c");
    assert_eq!(count_digits(&text, 2, 10), 5);
    assert_eq!(count_digits(&text, 2, 3), 3);
    assert_eq!(count_digits(&text, 2, 0), 0);
    assert_eq!(count_digits(&text, 0, 10), 0);
    assert_eq!(count_digits(&text, 7, 10), 0);
    assert_eq!(count_digits(&text, 8, 10), 0);
    assert_eq!(count_digits(&text, 6, 10), 1);
    assert_eq!(count_digits(&text, 9, 10), 0);
    assert_eq!(count_digits(&text, usize::MAX, usize::MAX), 0);
    assert_eq!(count_digits(&chars_of("123456789012345678901234567890"), 0, usize::MAX), 30);
    let blank = Fields::new();
    let read = |s: Specifier, text: &str, at: usize| {
        read_field(s, &chars_of(text), at, blank).map(|(fields, next)| (fields.resolve(), next))
    };
    assert_eq!(read(Specifier::Epoch, "ab12345c", 2), Some((Some(12345), 7)));
    assert_eq!(read(Specifier::Epoch, "0009999999999", 3), Some((Some(9999999999), 13)));
    assert_eq!(read(Specifier::Epoch, "00099999999990", 3), Some((Some(9999999999), 13)));
    assert_eq!(read(Specifier::Second, "007", 0), Some((Some(0), 2)));
    assert_eq!(read(Specifier::Second, "007", 1), Some((Some(7), 3)));
    assert_eq!(read(Specifier::Second, "007", 3), None);
    assert_eq!(read(Specifier::Second, "007", 4), None);
    assert_eq!(read(Specifier::Year, "12345", 0), Some((Some(-23225875200), 4)));
    assert!(is_ascii_digit('0') && is_ascii_digit('9') && is_ascii_digit('5'));
    assert!(!is_ascii_digit('/') && !is_ascii_digit(':') && !is_ascii_digit('a') && !is_ascii_digit('٣'));
}

#[test]
fn words_are_read_in_either_case() {
    assert_eq!(to_small('A'), 'a');
    assert_eq!(to_small('Z'), 'z');
    assert_eq!(to_small('q'), 'q');
    assert_eq!(to_small('@'), '@');
    assert_eq!(to_small('['), '[');
    assert_eq!(to_small('É'), 'É');
    let text = chars_of("xNoVember");
    assert!(reads(&text, 1, &chars_of("nov")));
    assert!(reads(&text, 4, &chars_of("ember")));
    assert!(reads(&text, 9, &chars_of("")));
    assert!(!reads(&text, 0, &chars_of("nov")));
    assert!(!reads(&text, 7, &chars_of("ember")));
    assert!(!reads(&text, 1, &chars_of("Nov")));
    assert!(!reads(&text, 10, &chars_of("")));
    assert!(!reads(&text, usize::MAX, &chars_of("nov")));
    assert_eq!(abbreviation(1), "jan");
    assert_eq!(abbreviation(12), "dec");
    assert_eq!(remainder(5), "");
    assert_eq!(remainder(9), "tember");
    for month in 1..=12u32 {
        assert_eq!(abbreviation(month).len(), 3);
    }
}

#[test]
fn months_are_read_with_their_end() {
    let text = chars_of("x September,Sept");
    assert_eq!(read_month(&text, 2, true), Some((9, 11)));
    assert_eq!(read_month(&text, 2, false), Some((9, 5)));
    assert_eq!(read_month(&text, 12, true), Some((9, 15)));
    assert_eq!(read_month(&text, 0, true), None);
    assert_eq!(read_month(&text, 14, true), None);
    assert_eq!(read_month(&text, 16, false), None);
    assert_eq!(read_month(&text, 17, false), None);
    assert_eq!(read_month(&text, usize::MAX, true), None);
}

#[test]
fn single_fields_and_items_are_read() {
    let text = chars_of("12:Mar.25");
    let blank = Fields::new();
    let (after, next) = read_field(Specifier::Hour, &text, 0, blank).unwrap();
    assert_eq!((after.hour, next), (Some(12), 2));
    let (after, next) = read_item(Item::Literal(':'), &text, 2, after).unwrap();
    assert_eq!((after.hour, next), (Some(12), 3));
    assert_eq!(read_item(Item::Literal(';'), &text, 2, after), None);
    assert_eq!(read_item(Item::Literal(':'), &text, 9, after), None);
    assert_eq!(read_item(Item::Literal(':'), &text, usize::MAX, after), None);
    assert_eq!(read_item(Item::Field(Specifier::Day), &text, usize::MAX, after), None);
    assert_eq!(read_item(Item::Field(Specifier::Fraction), &text, usize::MAX, after), None);
    assert_eq!(read_item(Item::Field(Specifier::MonthName), &text, usize::MAX, after), None);
    let (after, next) = read_item(Item::Field(Specifier::MonthName), &text, 3, after).unwrap();
    assert_eq!((after.month, next), (Some(3), 6));
    let (after, next) = read_field(Specifier::Fraction, &text, 6, after).unwrap();
    assert_eq!(next, 9);
    assert_eq!(after.hour, Some(12));
    assert_eq!(after.month, Some(3));
    assert_eq!(after.second, None);
    assert_eq!(read_field(Specifier::Fraction, &text, 2, blank), None);
    assert_eq!(read_field(Specifier::Fraction, &text, 9, blank), None);
    assert_eq!(read_field(Specifier::Day, &text, 2, blank), None);
    assert_eq!(read_field(Specifier::Month, &text, 7, Fields { month: Some(3), ..blank }), None);
    let (after, next) = read_field(Specifier::Epoch, &text, 7, blank).unwrap();
    assert_eq!((after.epoch, next), (Some(25), 9));
}

#[test]
fn fields_are_read_from_conforming_text() {
    let items = template_items("%Y-%m-%dT%H:%M:%S%.f");
    let fields = read_fields(&items, &chars_of("2019-11-23T06:26:40.781")).unwrap();
    assert_eq!(
        fields,
        Fields {
            year: Some(2019),
            century: None,
            year_of_century: None,
            month: Some(11),
            day: Some(23),
            hour: Some(6),
            minute: Some(26),
            second: Some(40),
            epoch: None,
        }
    );
    assert_eq!(fields.resolve(), Some(1574490400));
    assert_eq!(read_fields(&items, &chars_of("2019-11-23T06:26:40")), None);
    let odd = read_fields(&items, &chars_of("2019-99-99T99:99:99.9")).unwrap();
    assert_eq!(odd.day, Some(99));
    assert_eq!(odd.resolve(), None);
}

#[test]
fn a_match_is_read_by_the_template() {
    let finder = TimestampFinder::new().unwrap();
    assert_eq!(finder.read_match(Some("23/Nov/2019:06:26:40.781")), Some(1574490400));
    assert_eq!(finder.read_match(Some("32/Nov/2019:06:26:40.781")), None);
    assert_eq!(finder.read_match(Some("[23/Nov/2019:06:26:40.781]")), None);
    assert_eq!(finder.read_match(Some("")), None);
    assert_eq!(finder.read_match(None), None);
}
