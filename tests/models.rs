use chrono::{NaiveDate, NaiveTime};
use diary::decimal::{push_decimal, push_decimal_nat};
use diary::models::{DiaryEntry, DiaryOwner, LandingPageDiaryEntry, NewDiaryEntry};

fn entry(id: i32, title: &str) -> DiaryEntry {
    DiaryEntry {
        id,
        title: String::from(title),
        body: String::from("body text"),
        creation_date: NaiveDate::from_ymd_opt(2017, 5, 14).unwrap(),
        creation_time: NaiveTime::from_hms_opt(10, 30, 0).unwrap(),
    }
}

#[test]
fn absolute_url_holds_the_identifier() {
    assert_eq!(entry(42, "t").get_absolute_url(), "/api/entries/42");
    assert_eq!(entry(0, "t").get_absolute_url(), "/api/entries/0");
    assert_eq!(entry(-7, "t").get_absolute_url(), "/api/entries/-7");
    assert_eq!(entry(i32::MAX, "t").get_absolute_url(), "/api/entries/2147483647");
    assert_eq!(entry(i32::MIN, "t").get_absolute_url(), "/api/entries/-2147483648");
}

#[test]
fn react_url_holds_the_identifier() {
    assert_eq!(entry(1, "t").get_react_url(), "/entry/1");
    assert_eq!(entry(1905, "t").get_react_url(), "/entry/1905");
    assert_eq!(entry(-10, "t").get_react_url(), "/entry/-10");
}

#[test]
fn entries_are_equal_by_identifier() {
    assert!(entry(3, "one") == entry(3, "two"));
    assert!(entry(3, "one") != entry(4, "one"));
}

#[test]
fn listed_entries_are_equal_by_identifier() {
    let listed = |id: i32, count: i32| LandingPageDiaryEntry {
        id,
        title: String::from("t"),
        body: String::from("b"),
        creation_date: NaiveDate::from_ymd_opt(2017, 1, 1).unwrap(),
        creation_time: NaiveTime::from_hms_opt(0, 0, 0).unwrap(),
        comments_count: count,
    };
    assert!(listed(8, 0) == listed(8, 5));
    assert!(listed(8, 0) != listed(9, 0));
}

#[test]
fn owners_are_equal_by_identifier() {
    let a = DiaryOwner {
        id: 1,
        email: String::from("a@example.com"),
        password: String::from("p"),
        jwt: Some(String::from("t")),
    };
    let b = DiaryOwner {
        id: 1,
        email: String::from("b@example.com"),
        password: String::from("q"),
        jwt: None,
    };
    let c = DiaryOwner { id: 2, ..b };
    assert!(a == DiaryOwner { id: 1, email: String::new(), password: String::new(), jwt: None });
    assert!(a != c);
}

#[test]
fn decimal_text_is_appended() {
    let mut s = String::from("n=");
    push_decimal(&mut s, -305);
    assert_eq!(s, "n=-305");
    let mut t = String::new();
    push_decimal_nat(&mut t, 4_294_967_295);
    assert_eq!(t, "4294967295");
    let mut z = String::new();
    push_decimal_nat(&mut z, 0);
    assert_eq!(z, "0");
}

#[test]
fn new_entry_longer_than_three_bytes_is_accepted() {
    let e = NewDiaryEntry { title: String::from("abcd"), body: String::from("wxyz") };
    assert!(e.validate().is_ok());
}

#[test]
fn new_entry_with_short_title_or_body_is_refused() {
    let message = "The length of the body and title must be greater than 3 characters!";
    let short_title = NewDiaryEntry { title: String::from("abc"), body: String::from("long body") };
    assert_eq!(short_title.validate().unwrap_err().error_message, message);
    let short_body = NewDiaryEntry { title: String::from("a title"), body: String::new() };
    assert_eq!(short_body.validate().unwrap_err().error_message, message);
}

#[test]
fn new_entry_length_counts_bytes() {
    // Two characters of two bytes each: four bytes.
    let e = NewDiaryEntry { title: String::from("éé"), body: String::from("éé") };
    assert!(e.validate().is_ok());
}
