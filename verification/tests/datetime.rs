use cmos::datetime::RTCDateTime;
use std::cmp::Ordering;

fn at(year: usize, month: u8, day: u8, hour: u8, minute: u8, second: u8) -> RTCDateTime {
    RTCDateTime { year, month, day, hour, minute, second }
}

#[test]
fn february_follows_the_gregorian_leap_rule() {
    assert_eq!(RTCDateTime::days_by_month(1900, 2), 28);
    assert_eq!(RTCDateTime::days_by_month(2000, 2), 29);
    assert_eq!(RTCDateTime::days_by_month(2024, 2), 29);
    assert_eq!(RTCDateTime::days_by_month(2023, 2), 28);
    assert_eq!(RTCDateTime::days_by_month(2100, 2), 28);
    assert_eq!(RTCDateTime::days_by_month(0, 2), 29);
    assert_eq!(RTCDateTime::days_by_month(usize::MAX, 2), if usize::MAX % 4 == 0 { 29 } else { 28 });
}

#[test]
fn months_have_their_fixed_lengths() {
    let lengths = [31u8, 28, 31, 30, 31, 30, 31, 31, 30, 31, 30, 31];
    for month in 1..=12u8 {
        assert_eq!(RTCDateTime::days_by_month(2023, month), lengths[month as usize - 1]);
    }
    let total: u32 = (1..=12u8).map(|m| RTCDateTime::days_by_month(2023, m) as u32).sum();
    assert_eq!(total, 365);
    let leap_total: u32 = (1..=12u8).map(|m| RTCDateTime::days_by_month(2024, m) as u32).sum();
    assert_eq!(leap_total, 366);
}

#[test]
fn no_month_has_no_days() {
    assert_eq!(RTCDateTime::days_by_month(2023, 0), 0);
    assert_eq!(RTCDateTime::days_by_month(2023, 13), 0);
    assert_eq!(RTCDateTime::days_by_month(2023, 255), 0);
}

#[test]
fn is_valid_rejects_fields_out_of_range() {
    assert!(!at(2023, 0, 1, 0, 0, 0).is_valid());
    assert!(!at(2023, 13, 1, 0, 0, 0).is_valid());
    assert!(!at(2023, 1, 1, 24, 0, 0).is_valid());
    assert!(!at(2023, 1, 1, 0, 60, 0).is_valid());
    assert!(!at(2023, 1, 1, 0, 0, 60).is_valid());
    assert!(!at(2023, 2, 29, 0, 0, 0).is_valid());
    assert!(!at(1900, 2, 29, 0, 0, 0).is_valid());
    assert!(!at(2023, 4, 31, 0, 0, 0).is_valid());
    assert!(!at(2023, 1, 32, 0, 0, 0).is_valid());
    assert!(!at(2023, 1, 0, 0, 0, 0).is_valid());
    assert!(!at(2023, 0, 0, 0, 0, 0).is_valid());
}

#[test]
fn is_valid_accepts_the_edges_of_each_range() {
    assert!(at(2023, 1, 1, 0, 0, 0).is_valid());
    assert!(at(2023, 12, 31, 23, 59, 59).is_valid());
    assert!(at(2023, 1, 31, 0, 0, 0).is_valid());
    assert!(at(2023, 2, 28, 0, 0, 0).is_valid());
    assert!(at(2024, 2, 29, 0, 0, 0).is_valid());
    assert!(at(2000, 2, 29, 0, 0, 0).is_valid());
    assert!(at(2023, 4, 30, 0, 0, 0).is_valid());
    assert!(at(0, 1, 1, 0, 0, 0).is_valid());
}

#[test]
fn from_tuple_builds_what_is_valid() {
    let made = RTCDateTime::from_tuple(&(2019, 3, 5, 8, 30, 2));
    assert_eq!(made, Some(at(2019, 3, 5, 8, 30, 2)));
    let leap = RTCDateTime::from_tuple(&(2024, 2, 29, 23, 59, 59));
    assert_eq!(leap.map(|d| d.as_tuple()), Some((2024, 2, 29, 23, 59, 59)));
}

#[test]
fn from_tuple_refuses_and_does_not_adjust() {
    assert_eq!(RTCDateTime::from_tuple(&(2019, 0, 5, 8, 30, 2)), None);
    assert_eq!(RTCDateTime::from_tuple(&(2019, 13, 5, 8, 30, 2)), None);
    assert_eq!(RTCDateTime::from_tuple(&(2019, 2, 29, 8, 30, 2)), None);
    assert_eq!(RTCDateTime::from_tuple(&(2019, 3, 0, 8, 30, 2)), None);
    assert_eq!(RTCDateTime::from_tuple(&(2019, 3, 5, 24, 30, 2)), None);
    assert_eq!(RTCDateTime::from_tuple(&(2019, 3, 5, 8, 60, 2)), None);
    assert_eq!(RTCDateTime::from_tuple(&(2019, 3, 5, 8, 30, 60)), None);
}

#[test]
fn tuples_carry_the_fields_in_order() {
    let value = at(2019, 3, 5, 8, 30, 2);
    assert_eq!(value.as_tuple(), (2019, 3, 5, 8, 30, 2));
    assert_eq!(value.into_tuple(), (2019, 3, 5, 8, 30, 2));
    assert_eq!(RTCDateTime::from_tuple(&value.as_tuple()), Some(value));
    let invalid = at(2019, 14, 40, 30, 70, 80);
    assert_eq!(invalid.as_tuple(), (2019, 14, 40, 30, 70, 80));
    assert_eq!(RTCDateTime::from_tuple(&invalid.as_tuple()), None);
}

#[test]
fn bounds_of_the_type() {
    assert_eq!(RTCDateTime::max().as_tuple(), (usize::MAX, 255, 255, 255, 255, 255));
    assert_eq!(RTCDateTime::min().as_tuple(), (0, 0, 0, 0, 0, 0));
    assert!(!RTCDateTime::max().is_valid());
    assert!(!RTCDateTime::min().is_valid());
    assert_eq!(RTCDateTime::default(), RTCDateTime::min());
}

#[test]
fn bounds_of_the_calendar() {
    assert_eq!(RTCDateTime::max_valid().as_tuple(), (usize::MAX, 12, 31, 23, 59, 59));
    assert_eq!(RTCDateTime::min_valid().as_tuple(), (0, 1, 1, 0, 0, 0));
    assert!(RTCDateTime::max_valid().is_valid());
    assert!(RTCDateTime::min_valid().is_valid());
    assert!(RTCDateTime::min() < RTCDateTime::min_valid());
    assert!(RTCDateTime::max_valid() < RTCDateTime::max());
}

#[test]
fn later_moments_compare_greater() {
    let a = at(2020, 1, 1, 0, 0, 0);
    let b = at(2020, 1, 1, 0, 0, 1);
    let c = at(2021, 1, 1, 0, 0, 0);
    assert!(a < b);
    assert!(b < c);
    assert!(a < c);
    assert!(c > a);
    assert!(a <= a);
    assert!(a >= a);
    assert!(!(b < a));
}

#[test]
fn the_first_differing_field_decides() {
    assert!(at(2020, 12, 31, 23, 59, 59) < at(2021, 1, 1, 0, 0, 0));
    assert!(at(2020, 1, 31, 23, 59, 59) < at(2020, 2, 1, 0, 0, 0));
    assert!(at(2020, 1, 1, 23, 59, 59) < at(2020, 1, 2, 0, 0, 0));
    assert!(at(2020, 1, 1, 0, 59, 59) < at(2020, 1, 1, 1, 0, 0));
    assert!(at(2020, 1, 1, 0, 0, 59) < at(2020, 1, 1, 0, 1, 0));
    assert!(at(2020, 1, 1, 0, 0, 0) < at(2020, 1, 1, 0, 0, 1));
}

#[test]
fn partial_cmp_and_cmp_agree() {
    let a = at(2020, 1, 1, 0, 0, 0);
    let b = at(2020, 1, 1, 0, 0, 1);
    assert_eq!(a.partial_cmp(&b), Some(Ordering::Less));
    assert_eq!(b.partial_cmp(&a), Some(Ordering::Greater));
    assert_eq!(a.partial_cmp(&a), Some(Ordering::Equal));
    assert_eq!(a.cmp(&b), Ordering::Less);
    assert_eq!(b.cmp(&a), Ordering::Greater);
    assert_eq!(a.cmp(&a), Ordering::Equal);
    assert!(a.is_before(&b));
    assert!(!b.is_before(&a));
    assert!(!a.is_before(&a));
}

#[test]
fn sorting_puts_moments_in_the_order_of_time() {
    let mut moments = vec![
        at(2021, 1, 1, 0, 0, 0),
        at(2020, 1, 1, 0, 0, 1),
        at(2020, 6, 15, 12, 0, 0),
        at(2020, 1, 1, 0, 0, 0),
    ];
    moments.sort();
    assert_eq!(
        moments,
        vec![
            at(2020, 1, 1, 0, 0, 0),
            at(2020, 1, 1, 0, 0, 1),
            at(2020, 6, 15, 12, 0, 0),
            at(2021, 1, 1, 0, 0, 0),
        ]
    );
    for every in &moments {
        assert!(RTCDateTime::min() <= *every && *every <= RTCDateTime::max());
        assert!(RTCDateTime::min_valid() <= *every && *every <= RTCDateTime::max_valid());
    }
}

#[test]
fn text_form_has_no_padding() {
    assert_eq!(at(2019, 3, 5, 8, 30, 2).to_string(), "2019-3-5T8:30:2Z");
}

#[test]
fn text_form_of_small_and_large_fields() {
    assert_eq!(at(0, 1, 1, 0, 0, 0).to_string(), "0-1-1T0:0:0Z");
    assert_eq!(at(2023, 12, 31, 23, 59, 59).to_string(), "2023-12-31T23:59:59Z");
    assert_eq!(at(10, 10, 10, 10, 10, 10).to_string(), "10-10-10T10:10:10Z");
    assert_eq!(at(12345, 255, 100, 9, 99, 101).to_string(), "12345-255-100T9:99:101Z");
    assert_eq!(
        RTCDateTime::max().to_string(),
        format!("{}-255-255T255:255:255Z", usize::MAX)
    );
}
