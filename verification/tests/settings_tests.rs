use aichdl::settings::{apply_settings, credential, default_settings, has_zhihu_credentials, settings_report};

#[test]
fn defaults_have_no_credentials() {
    let s = default_settings("/x/deepseek".to_string());
    assert_eq!(s.deepseek_dir, "/x/deepseek");
    assert!(s.zhihu_cookie.is_none() && s.zhihu_xsrf.is_none());
    assert!(!has_zhihu_credentials(&s));
}

#[test]
fn apply_replaces_only_given_values() {
    let s = default_settings("d".to_string());
    let s = apply_settings(s, None, Some("cookie"), None);
    assert_eq!(s.deepseek_dir, "d");
    assert_eq!(s.zhihu_cookie.as_deref(), Some("cookie"));
    assert!(!has_zhihu_credentials(&s));
    let s = apply_settings(s, Some("e"), None, Some("x"));
    assert_eq!(s.deepseek_dir, "e");
    assert_eq!(s.zhihu_cookie.as_deref(), Some("cookie"));
    assert!(has_zhihu_credentials(&s));
}

#[test]
fn applying_twice_is_applying_once() {
    let once = apply_settings(default_settings("d".to_string()), Some("a"), Some("b"), None);
    let twice = apply_settings(
        apply_settings(default_settings("d".to_string()), Some("a"), Some("b"), None),
        Some("a"),
        Some("b"),
        None,
    );
    assert_eq!((once.deepseek_dir, once.zhihu_cookie, once.zhihu_xsrf), (twice.deepseek_dir, twice.zhihu_cookie, twice.zhihu_xsrf));
}

#[test]
fn report_says_whether_credentials_are_set() {
    let s = apply_settings(default_settings("dir".to_string()), None, Some("secret"), None);
    let r = settings_report("/p/settings.toml", &s);
    assert_eq!(r, "配置已保存到 /p/settings.toml\n- deepseek_dir: dir\n- zhihu_cookie: 已配置\n- zhihu_xsrf: 未配置");
    assert!(!r.contains("secret"));
}

#[test]
fn an_empty_credential_is_not_configured() {
    let s = apply_settings(default_settings("d".to_string()), None, Some(""), Some("x"));
    assert_eq!(s.zhihu_cookie.as_deref(), Some(""));
    assert!(!has_zhihu_credentials(&s));
    let r = settings_report("f", &s);
    assert_eq!(r, "配置已保存到 f\n- deepseek_dir: d\n- zhihu_cookie: 未配置\n- zhihu_xsrf: 已配置");
}

#[test]
fn credential_text_is_empty_when_unset() {
    assert_eq!(credential(&None), "");
    assert_eq!(credential(&Some("c".to_string())), "c");
}
