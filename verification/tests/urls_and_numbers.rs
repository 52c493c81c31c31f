use nibl_search::decimal::{i32_decimal, u32_decimal};
use nibl_search::url::{bots_url, search_url};

#[test]
fn bots_url_is_fixed() {
    assert_eq!(bots_url(), "https://api.nibl.co.uk/nibl/bots");
}

#[test]
fn search_url_without_episode_has_no_episode_parameter() {
    let url = search_url("foo", &None);
    assert_eq!(url, "https://api.nibl.co.uk/nibl/search?query=foo");
    assert!(!url.contains("episode"));
}

#[test]
fn search_url_with_episode_appends_it() {
    let url = search_url("foo", &Some("5".to_string()));
    assert_eq!(url, "https://api.nibl.co.uk/nibl/search?query=foo&episode=5");
}

#[test]
fn unsigned_decimal_rendering() {
    assert_eq!(u32_decimal(0), "0");
    assert_eq!(u32_decimal(7), "7");
    assert_eq!(u32_decimal(42), "42");
    assert_eq!(u32_decimal(1234567890), "1234567890");
    assert_eq!(u32_decimal(u32::MAX), "4294967295");
}

#[test]
fn signed_decimal_rendering() {
    assert_eq!(i32_decimal(0), "0");
    assert_eq!(i32_decimal(42), "42");
    assert_eq!(i32_decimal(-1), "-1");
    assert_eq!(i32_decimal(i32::MAX), "2147483647");
    assert_eq!(i32_decimal(i32::MIN), "-2147483648");
}
