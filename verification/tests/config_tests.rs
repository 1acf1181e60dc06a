use aichdl::config::{build_headers, is_valid_header_value};
use reqwest::header::{HeaderMap, HeaderValue};

#[test]
fn headers_carry_cookie_and_token() {
    let h = build_headers("z_c0=abc; _xsrf=tok", "tok");
    assert_eq!(h.len(), 21);
    assert_eq!(h.get("cookie").unwrap(), "z_c0=abc; _xsrf=tok");
    assert_eq!(h.get("x-xsrftoken").unwrap(), "tok");
    assert_eq!(h.get("accept").unwrap(), "*/*");
    assert_eq!(h.get("origin").unwrap(), "https://www.zhihu.com");
    assert_eq!(h.get("x-zse-93").unwrap(), "101_3_3.0");
    assert_eq!(h.get("sec-ch-ua-platform").unwrap(), "\"Windows\"");
}

#[test]
fn headers_match_a_map_built_directly() {
    let h = build_headers("c", "x");
    let mut expected = HeaderMap::new();
    for (k, v) in h.iter() {
        expected.insert(k.clone(), v.clone());
    }
    assert_eq!(h, expected);
    assert_eq!(h.get("user-agent").unwrap(), HeaderValue::from_static("Mozilla/5.0 (Windows NT 10.0; Win64; x64) AppleWebKit/537.36 (KHTML, like Gecko) Chrome/154.0.0.0 Safari/537.36"));
}

#[test]
fn header_value_validity_matches_the_http_crate() {
    for s in ["", "abc", "a\tb", "a\nb", "\u{7f}", "中文", "x y"] {
        assert_eq!(is_valid_header_value(s), HeaderValue::from_str(s).is_ok(), "{:?}", s);
    }
}
