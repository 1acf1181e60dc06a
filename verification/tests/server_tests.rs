use aichdl::server::{
    daily_fallback_report, limit_arg, missing_title_message, no_sessions_message, parse_report,
    route_method, route_tool, session_report, unknown_tool_message, unsupported_method_message,
    Route, Tool,
};
use aichdl::types::{SessionDetail, SessionSummary};

#[test]
fn methods_route_as_the_protocol_says() {
    assert_eq!(route_method("initialize", false), Route::Initialize);
    assert_eq!(route_method("initialize", true), Route::Initialize);
    assert_eq!(route_method("tools/list", true), Route::Ignore);
    assert_eq!(route_method("notifications/initialized", true), Route::Ignore);
    assert_eq!(route_method("tools/list", false), Route::ToolsList);
    assert_eq!(route_method("tools/call", false), Route::ToolsCall);
    assert_eq!(route_method("", false), Route::Unsupported);
    assert_eq!(route_method("ping", false), Route::Unsupported);
}

#[test]
fn tools_by_name() {
    assert_eq!(route_tool("zhihu_init"), Tool::Init);
    assert_eq!(route_tool("zhihu_parse"), Tool::Parse);
    assert_eq!(route_tool("zhihu_session"), Tool::Session);
    assert_eq!(route_tool("zhihu_daily"), Tool::Daily);
    assert_eq!(route_tool("zhihu"), Tool::Unknown);
}

#[test]
fn limit_defaults_to_fifty() {
    assert_eq!(limit_arg(None), 50);
    assert_eq!(limit_arg(Some(7)), 7);
}

#[test]
fn messages() {
    assert_eq!(unknown_tool_message("x"), "未知工具: x");
    assert_eq!(unsupported_method_message("m"), "不支持的方法: m");
    assert_eq!(no_sessions_message("dir"), "未在目录 `dir` 中找到 DS 对话 JSON 文件。请确认路径正确。");
    assert_eq!(missing_title_message(), "请提供会话标题关键词 (title 参数)。例如: zhihu_session(title=\"Rust\")");
}

#[test]
fn parse_report_without_sessions() {
    let empty: Vec<SessionSummary> = vec![];
    assert_eq!(parse_report("d", &empty, 3, 50), no_sessions_message("d"));
}

#[test]
fn session_report_when_nothing_matches() {
    assert_eq!(session_report("Go", None), "未找到标题包含 \"Go\" 的会话。请尝试其他关键词。");
    let d = SessionDetail { title: "T".to_string(), updated_at: "u".to_string(), turns: vec![] };
    assert!(session_report("T", Some(d)).starts_with("# T\n\n"));
}

#[test]
fn daily_without_credentials_falls_back_to_the_overview() {
    let s = vec![SessionSummary {
        title: "A".to_string(),
        updated_at: "t".to_string(),
        updated_secs: None,
        question_count: 1,
        sample_questions: vec![],
        total_chars: 3,
    }];
    let r = daily_fallback_report(&s, 1, 50);
    assert!(r.starts_with("## 未配置知乎凭据\n\n请先通过 `zhihu_init` 工具配置 Cookie 后重试。\n\n以下仅展示 DS 会话分析:\n\n# 会话概览"));
    assert!(r.ends_with(&aichdl::analyzer::format_session_list(&s, 1, 50)));
}

fn one_summary() -> Vec<SessionSummary> {
    vec![SessionSummary {
        title: "A".to_string(),
        updated_at: "t".to_string(),
        updated_secs: None,
        question_count: 2,
        sample_questions: vec!["q".to_string()],
        total_chars: 5,
    }]
}

#[test]
fn plan_daily_without_sessions_says_so() {
    let s = aichdl::settings::apply_settings(
        aichdl::settings::default_settings("d".to_string()),
        None,
        Some("c"),
        Some("x"),
    );
    match aichdl::server::plan_daily("d", &s, &[], 0, 50) {
        aichdl::server::DailyStep::Reply(t) => assert_eq!(t, no_sessions_message("d")),
        _ => panic!("expected a reply"),
    }
}

#[test]
fn plan_daily_falls_back_without_credentials() {
    let s = aichdl::settings::apply_settings(
        aichdl::settings::default_settings("d".to_string()),
        None,
        Some("cookie"),
        None,
    );
    let summaries = one_summary();
    match aichdl::server::plan_daily("d", &s, &summaries, 1, 50) {
        aichdl::server::DailyStep::Reply(t) => assert_eq!(t, daily_fallback_report(&summaries, 1, 50)),
        _ => panic!("expected the local overview"),
    }
}

#[test]
fn plan_daily_fetches_with_credentials() {
    let summaries = one_summary();
    let base = || aichdl::settings::default_settings("d".to_string());
    let s = aichdl::settings::apply_settings(base(), None, Some("c=1"), Some("tok"));
    match aichdl::server::plan_daily("d", &s, &summaries, 1, 50) {
        aichdl::server::DailyStep::Fetch(h) => {
            assert_eq!(h.get("cookie").unwrap(), "c=1");
            assert_eq!(h.get("x-xsrftoken").unwrap(), "tok");
        }
        _ => panic!("expected a fetch"),
    }
    let s = aichdl::settings::apply_settings(base(), None, Some("c\n"), Some("tok"));
    assert!(matches!(aichdl::server::plan_daily("d", &s, &summaries, 1, 50), aichdl::server::DailyStep::BadCookie));
    let s = aichdl::settings::apply_settings(base(), None, Some("c"), Some("t\u{7f}"));
    assert!(matches!(aichdl::server::plan_daily("d", &s, &summaries, 1, 50), aichdl::server::DailyStep::BadXsrf));
}

#[test]
fn daily_brief_from_the_api_answer() {
    let summaries = one_summary();
    let body = r#"{"data":[{"question":{"id":"7","title":"标题"}}]}"#.to_string();
    let brief = aichdl::server::daily_brief(body, &summaries, 1, 50).unwrap();
    let qs = vec![["7".to_string(), "标题".to_string()]];
    assert_eq!(brief, aichdl::analyzer::format_zhihu_for_ai(&qs, &summaries, 1, 50));
    assert!(aichdl::server::daily_brief("not json".to_string(), &summaries, 1, 50).is_none());
}

#[test]
fn stale_locks() {
    assert!(aichdl::server::lock_is_stale(None));
    assert!(aichdl::server::lock_is_stale(Some(301)));
    assert!(!aichdl::server::lock_is_stale(Some(300)));
}
