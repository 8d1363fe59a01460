use smart_persona::cookie::{
    attach_cookies, build_set_cookie, extract_access, extract_refresh, get_cookie_value,
};
use smart_persona::issuer::Passport;
use smart_persona::text::{parse_dec_u64, u64_to_dec_string};

#[test]
fn cookie_value_found() {
    assert_eq!(
        get_cookie_value("act=abc; rft=def", "act"),
        Some(String::from("abc"))
    );
    assert_eq!(
        get_cookie_value("act=abc; rft=def", "rft"),
        Some(String::from("def"))
    );
}

#[test]
fn cookie_value_missing() {
    assert_eq!(get_cookie_value("foo=bar; baz=qux", "act"), None);
    assert_eq!(get_cookie_value("", "act"), None);
    assert_eq!(get_cookie_value("act", "act"), None);
}

#[test]
fn cookie_names_and_values_are_trimmed() {
    assert_eq!(
        get_cookie_value("  act  =  abc  ", "act"),
        Some(String::from("abc"))
    );
}

#[test]
fn first_matching_cookie_wins() {
    assert_eq!(
        get_cookie_value("a=1; a=2", "a"),
        Some(String::from("1"))
    );
}

#[test]
fn cookie_value_may_contain_equals() {
    // Only the first '=' separates name and value.
    assert_eq!(
        get_cookie_value("act=a=b; rft=x", "act"),
        Some(String::from("a=b"))
    );
}

#[test]
fn set_cookie_attributes() {
    assert_eq!(
        build_set_cookie("act", "tok", false),
        "act=tok; Path=/; SameSite=Lax; HttpOnly; Max-Age=1209600"
    );
    assert_eq!(
        build_set_cookie("act", "tok", true),
        "act=tok; Path=/; SameSite=Lax; HttpOnly; Max-Age=1209600; Secure"
    );
}

#[test]
fn attach_and_extract_round_trip() {
    let p = Passport {
        access_token: String::from("A.tok"),
        refresh_token: String::from("R.tok"),
    };
    let (act, rft) = attach_cookies(&p, false);
    assert!(act.starts_with("act=A.tok;"));
    assert!(rft.starts_with("rft=R.tok;"));
    // A browser would send both values back in one Cookie header.
    let header = format!("act=A.tok; rft=R.tok");
    assert_eq!(extract_access(&header), Some(String::from("A.tok")));
    assert_eq!(extract_refresh(&header), Some(String::from("R.tok")));
    assert_eq!(extract_refresh("act=A.tok"), None);
}

#[test]
fn decimal_render_and_parse() {
    assert_eq!(u64_to_dec_string(0), "0");
    assert_eq!(u64_to_dec_string(907), "907");
    assert_eq!(u64_to_dec_string(u64::MAX), "18446744073709551615");
    assert_eq!(parse_dec_u64("0"), Some(0));
    assert_eq!(parse_dec_u64("907"), Some(907));
    assert_eq!(parse_dec_u64("007"), Some(7));
    assert_eq!(parse_dec_u64("18446744073709551615"), Some(u64::MAX));
    assert_eq!(parse_dec_u64("18446744073709551616"), None);
    assert_eq!(parse_dec_u64(""), None);
    assert_eq!(parse_dec_u64("12a"), None);
    assert_eq!(parse_dec_u64("-3"), None);
}
