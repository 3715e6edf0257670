use salsa::cookies::parse_cookies;
use salsa::session::get_session_token;

#[test]
fn empty() {
    let res = parse_cookies("");
    assert!(res.is_ok());
    assert!(res.unwrap().is_empty())
}

#[test]
fn one_cookie() {
    let res = parse_cookies("foo=bar");
    assert!(res.is_ok());
    let map = res.unwrap();
    assert_eq!(1, map.len());
    assert_eq!("bar", map.get("foo").unwrap());
}

#[test]
fn two_cookies() {
    let res = parse_cookies("foo=bar; peti=kloe");
    assert!(res.is_ok());
    let map = res.unwrap();
    assert_eq!(2, map.len());
    assert_eq!("bar", map.get("foo").unwrap());
    assert_eq!("kloe", map.get("peti").unwrap());
}

#[test]
fn wrong_format() {
    let res = parse_cookies("foo:bar");
    assert!(res.is_err());
}

#[test]
fn missing_space() {
    let res = parse_cookies("foo=bar;peti=kloe");
    assert!(res.is_ok());
    let map = res.unwrap();
    assert_eq!(1, map.len());
    assert_eq!("bar;peti=kloe", map.get("foo").unwrap());
}

#[test]
fn later_cookie_replaces_earlier() {
    let map = parse_cookies("a=1; b=2; a=3").unwrap();
    assert_eq!(2, map.len());
    assert_eq!("3", map.get("a").unwrap());
    assert_eq!("2", map.get("b").unwrap());
}

#[test]
fn empty_pieces_are_skipped() {
    let map = parse_cookies("; a=1; ; b=x=y; ").unwrap();
    assert_eq!(2, map.len());
    assert_eq!("1", map.get("a").unwrap());
    assert_eq!("x=y", map.get("b").unwrap());
    assert!(map.get("c").is_none());
}

#[test]
fn nameless_and_valueless_cookies() {
    let map = parse_cookies("=v; k=").unwrap();
    assert_eq!("v", map.get("").unwrap());
    assert_eq!("", map.get("k").unwrap());
}

#[test]
fn one_bad_piece_rejects_header() {
    assert!(parse_cookies("a=1; broken; b=2").is_err());
}

#[test]
fn session_token_found() {
    let map = parse_cookies("theme=dark; session=abc123").unwrap();
    assert_eq!(Some("abc123".to_string()), get_session_token(&map));
}

#[test]
fn session_token_missing() {
    let map = parse_cookies("theme=dark").unwrap();
    assert_eq!(None, get_session_token(&map));
}
