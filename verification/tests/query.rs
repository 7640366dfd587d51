use auth_proxy::query::{percent_encode, to_query_fragment};
use auth_proxy::text::{contains_char, same_text};
use auth_proxy::token::SessionClaims;

#[test]
fn unreserved_text_is_left_as_it_is() {
    assert_eq!(percent_encode("alice"), "alice");
    assert_eq!(percent_encode("AZaz09-._~"), "AZaz09-._~");
    assert_eq!(percent_encode(""), "");
}

#[test]
fn other_bytes_are_written_as_two_hex_digits() {
    assert_eq!(percent_encode("a b"), "a%20b");
    assert_eq!(percent_encode("&=?#/%+"), "%26%3D%3F%23%2F%25%2B");
    assert_eq!(percent_encode("\u{e9}"), "%C3%A9");
    assert_eq!(percent_encode("\u{0}\u{7f}"), "%00%7F");
    assert_eq!(percent_encode("\u{1f600}"), "%F0%9F%98%80");
}

#[test]
fn fragment_names_the_subject() {
    let claims = SessionClaims { subject: String::from("alice"), expires_at: 1 };
    assert_eq!(to_query_fragment(&claims), "name=alice");
    let spaced = SessionClaims { subject: String::from("Ann Lee"), expires_at: 1 };
    assert_eq!(to_query_fragment(&spaced), "name=Ann%20Lee");
    let empty = SessionClaims { subject: String::new(), expires_at: 1 };
    assert_eq!(to_query_fragment(&empty), "name=");
}

#[test]
fn characters_are_found_in_text() {
    assert!(contains_char("/a?b", '?'));
    assert!(contains_char("?", '?'));
    assert!(!contains_char("/a/b", '?'));
    assert!(!contains_char("", '?'));
    assert!(contains_char("\u{e9}?", '?'));
}

#[test]
fn texts_are_compared_letter_for_letter() {
    assert!(same_text("POST", "POST"));
    assert!(!same_text("POST", "post"));
    assert!(!same_text("POST", "POS"));
    assert!(same_text("", ""));
}
