use geoviewer::text::contains_text;
use geoviewer::text::decimal_text;
use geoviewer::text::escape_markup_text;
use geoviewer::text::push_padded;
use geoviewer::text::push_signed;
use geoviewer::text::same_text;
use geoviewer::require;

#[test]
fn markup_is_escaped() {
    assert_eq!(escape_markup_text("a<b & c>d"), "a&lt;b &amp; c&gt;d");
    assert_eq!(escape_markup_text("plain"), "plain");
    let escaped = escape_markup_text("<<script>>alert('x')</script>");
    assert!(!escaped.contains('<') && !escaped.contains('>'));
}

#[test]
fn numbers_are_written_in_decimal() {
    assert_eq!(decimal_text(0), "0");
    assert_eq!(decimal_text(9041), "9041");
    let mut s = String::new();
    push_signed(&mut s, -305);
    assert_eq!(s, "-305");
    let mut t = String::new();
    push_signed(&mut t, i64::MIN);
    assert_eq!(t, "-9223372036854775808");
}

#[test]
fn numbers_are_padded() {
    let mut s = String::new();
    push_padded(&mut s, 7, 3);
    assert_eq!(s, "007");
    let mut t = String::new();
    push_padded(&mut t, 1234, 2);
    assert_eq!(t, "1234");
}

#[test]
fn texts_compare_and_contain() {
    assert!(same_text("Miller", "Miller"));
    assert!(!same_text("Miller", "miller"));
    assert!(contains_text("AddPolylineInteractive", "Polyline"));
    assert!(!contains_text("Poly", "Polyline"));
}

#[test]
fn require_keeps_the_message() {
    assert_eq!(require(true, "x"), Ok(()));
    assert_eq!(require(false, "Could not begin memory layer edit"), Err("Could not begin memory layer edit".to_owned()));
}
