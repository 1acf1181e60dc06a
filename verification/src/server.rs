//! The decisions of the MCP server: which answer a request gets, which
//! tool a call names, and the texts that the tools answer with. Reading
//! requests, the files and the network, and writing answers, is the
//! caller's part.
use vstd::prelude::*;
use crate::analyzer::{
    format_session_detail, format_session_list, format_zhihu_for_ai, session_detail_text,
    session_list_text, sum_question_counts, sum_total_chars, zhihu_brief_text,
};
use crate::config::{
    build_headers, header_entries, is_header_value_text, is_valid_header_value, zhihu_headers,
};
use crate::settings::{credential, credential_text, has_zhihu_credentials, is_configured, Settings};
use crate::zhihu::{parsed_json, question_pairs, recommended_questions, try_get_question_list};
use reqwest::header::{HeaderMap, HeaderValue};
use vstd::utf8::encode_utf8;
use crate::ds_parser::summary_views;
use crate::text::str_eq;
use crate::types::{SessionDetail, SessionSummary};

verus! {

/// How the server answers a JSON-RPC request.
#[derive(Debug, PartialEq, Eq, Structural)]
pub enum Route {
    /// `initialize`: the server's protocol version, capabilities and name.
    Initialize,
    /// A notification other than `initialize`: no answer.
    Ignore,
    /// `tools/list`: the four tools and their arguments.
    ToolsList,
    /// `tools/call`: the named tool's text.
    ToolsCall,
    /// Anything else: the error "method not found".
    Unsupported,
}

/// The route of a request with the given method (empty when it names
/// none); a request without an `id` is a notification.
pub open spec fn route_of(method: Seq<char>, is_notification: bool) -> Route {
    if method == "initialize"@ {
        Route::Initialize
    } else if is_notification {
        Route::Ignore
    } else if method == "tools/list"@ {
        Route::ToolsList
    } else if method == "tools/call"@ {
        Route::ToolsCall
    } else {
        Route::Unsupported
    }
}

/// How the server answers a request.
pub fn route_method(method: &str, is_notification: bool) -> (r: Route)
    ensures
        r == route_of(method@, is_notification),
{
    if str_eq(method, "initialize") {
        Route::Initialize
    } else if is_notification {
        Route::Ignore
    } else if str_eq(method, "tools/list") {
        Route::ToolsList
    } else if str_eq(method, "tools/call") {
        Route::ToolsCall
    } else {
        Route::Unsupported
    }
}

/// The tools the server offers.
#[derive(Debug, PartialEq, Eq, Structural)]
pub enum Tool {
    /// `zhihu_init`: save the settings.
    Init,
    /// `zhihu_parse`: the session overview.
    Parse,
    /// `zhihu_session`: one session's detail.
    Session,
    /// `zhihu_daily`: the daily brief.
    Daily,
    /// Any other name.
    Unknown,
}

/// The tool a call names.
pub open spec fn tool_of(name: Seq<char>) -> Tool {
    if name == "zhihu_init"@ {
        Tool::Init
    } else if name == "zhihu_parse"@ {
        Tool::Parse
    } else if name == "zhihu_session"@ {
        Tool::Session
    } else if name == "zhihu_daily"@ {
        Tool::Daily
    } else {
        Tool::Unknown
    }
}

/// The tool a call names.
pub fn route_tool(name: &str) -> (r: Tool)
    ensures
        r == tool_of(name@),
{
    if str_eq(name, "zhihu_init") {
        Tool::Init
    } else if str_eq(name, "zhihu_parse") {
        Tool::Parse
    } else if str_eq(name, "zhihu_session") {
        Tool::Session
    } else if str_eq(name, "zhihu_daily") {
        Tool::Daily
    } else {
        Tool::Unknown
    }
}

/// How many sessions the overview shows when the call does not say.
pub const DEFAULT_LIMIT: usize = 50;

/// The number of sessions to show: the call's `limit`, or 50.
pub fn limit_arg(limit: Option<u64>) -> (r: usize)
    ensures
        r == match limit {
            Some(n) => n as usize,
            None => DEFAULT_LIMIT,
        },
{
    match limit {
        Some(n) => n as usize,
        None => DEFAULT_LIMIT,
    }
}

/// The answer to a call of an unknown tool.
pub open spec fn unknown_tool_text(name: Seq<char>) -> Seq<char> {
    "未知工具: "@ + name
}

/// The answer to a call of an unknown tool.
pub fn unknown_tool_message(name: &str) -> (r: String)
    ensures
        r@ == unknown_tool_text(name@),
{
    let mut r = "未知工具: ".to_owned();
    r.append(name);
    r
}

/// The message of the error answer to an unsupported method.
pub open spec fn unsupported_method_text(method: Seq<char>) -> Seq<char> {
    "不支持的方法: "@ + method
}

/// The message of the error answer to an unsupported method.
pub fn unsupported_method_message(method: &str) -> (r: String)
    ensures
        r@ == unsupported_method_text(method@),
{
    let mut r = "不支持的方法: ".to_owned();
    r.append(method);
    r
}

/// The answer when the export directory holds no session with a question.
pub open spec fn no_sessions_text(dir: Seq<char>) -> Seq<char> {
    "未在目录 `"@ + dir + "` 中找到 DS 对话 JSON 文件。请确认路径正确。"@
}

/// The answer when the export directory holds no session with a question.
pub fn no_sessions_message(dir: &str) -> (r: String)
    ensures
        r@ == no_sessions_text(dir@),
{
    let mut r = "未在目录 `".to_owned();
    r.append(dir);
    r.append("` 中找到 DS 对话 JSON 文件。请确认路径正确。");
    r
}

/// The answer of `zhihu_parse`: the overview, or a note when there is no
/// session to show.
pub open spec fn parse_report_text(
    dir: Seq<char>,
    summaries: Seq<SessionSummary>,
    total: nat,
    limit: nat,
) -> Seq<char> {
    if summaries.len() == 0 {
        no_sessions_text(dir)
    } else {
        session_list_text(summary_views(summaries), total, limit)
    }
}

/// The answer of `zhihu_parse` for the summaries read from `dir`.
pub fn parse_report(dir: &str, summaries: &[SessionSummary], total_count: usize, limit: usize) -> (r:
    String)
    requires
        sum_question_counts(summary_views(summaries@)) <= usize::MAX,
        sum_total_chars(summary_views(summaries@)) <= usize::MAX,
    ensures
        r@ == parse_report_text(dir@, summaries@, total_count as nat, limit as nat),
{
    if summaries.len() == 0 {
        no_sessions_message(dir)
    } else {
        format_session_list(summaries, total_count, limit)
    }
}

/// The answer of `zhihu_session` when the call gives no title.
pub fn missing_title_message() -> (r: String)
    ensures
        r@ == "请提供会话标题关键词 (title 参数)。例如: zhihu_session(title=\"Rust\")"@,
{
    "请提供会话标题关键词 (title 参数)。例如: zhihu_session(title=\"Rust\")".to_owned()
}

/// The answer of `zhihu_session`: the detail of the session found, or a
/// note that none matched the title.
pub open spec fn session_report_text(title: Seq<char>, detail: Option<SessionDetail>) -> Seq<char> {
    match detail {
        Some(d) => session_detail_text(d@),
        None => "未找到标题包含 \""@ + title + "\" 的会话。请尝试其他关键词。"@,
    }
}

/// The answer of `zhihu_session` for the session found by `title`.
pub fn session_report(title: &str, detail: Option<SessionDetail>) -> (r: String)
    ensures
        r@ == session_report_text(title@, detail),
{
    match &detail {
        Some(d) => format_session_detail(d),
        None => {
            let mut r = "未找到标题包含 \"".to_owned();
            r.append(title);
            r.append("\" 的会话。请尝试其他关键词。");
            r
        },
    }
}

/// The answer of `zhihu_daily` without Zhihu credentials: a note, then
/// the overview alone.
pub open spec fn daily_fallback_text(s: Seq<SessionSummary>, total: nat, limit: nat) -> Seq<char> {
    "## 未配置知乎凭据\n\n"@ + "请先通过 `zhihu_init` 工具配置 Cookie 后重试。\n\n"@
        + "以下仅展示 DS 会话分析:\n\n"@ + session_list_text(summary_views(s), total, limit)
}

/// The answer of `zhihu_daily` when no Zhihu credentials are configured:
/// it falls back to the local overview.
pub fn daily_fallback_report(summaries: &[SessionSummary], total_count: usize, limit: usize) -> (r:
    String)
    requires
        sum_question_counts(summary_views(summaries@)) <= usize::MAX,
        sum_total_chars(summary_views(summaries@)) <= usize::MAX,
    ensures
        r@ == daily_fallback_text(summaries@, total_count as nat, limit as nat),
{
    let mut r = String::new();
    r.append("## 未配置知乎凭据\n\n");
    r.append("请先通过 `zhihu_init` 工具配置 Cookie 后重试。\n\n");
    r.append("以下仅展示 DS 会话分析:\n\n");
    let list = format_session_list(summaries, total_count, limit);
    r.append(list.as_str());
    assert(r@ =~= daily_fallback_text(summaries@, total_count as nat, limit as nat));
    r
}

/// How old, in seconds, another server's lock may be before it is taken
/// to be left over.
pub const LOCK_STALE_SECS: u64 = 300;

/// Whether another server's lock file is left over: when its age cannot be
/// told, or it is older than five minutes.
pub fn lock_is_stale(age_secs: Option<u64>) -> (r: bool)
    ensures
        r == match age_secs {
            Some(a) => a > LOCK_STALE_SECS,
            None => true,
        },
{
    match age_secs {
        Some(a) => a > LOCK_STALE_SECS,
        None => true,
    }
}

/// What `zhihu_daily` does next, once the sessions are read.
pub enum DailyStep {
    /// Answer with this text: there is no session, or no credentials.
    Reply(String),
    /// Ask the creator API for the recommended questions, with these headers.
    Fetch(HeaderMap<HeaderValue>),
    /// The configured cookie cannot be sent as a header value.
    BadCookie,
    /// The configured token cannot be sent as a header value.
    BadXsrf,
}

/// What `zhihu_daily` does once the sessions are read: with no session, it
/// says so; without credentials, it falls back to the local overview; with
/// both credentials, it fetches the recommendations (when they can be sent).
pub fn plan_daily(
    dir: &str,
    settings: &Settings,
    summaries: &[SessionSummary],
    total_count: usize,
    limit: usize,
) -> (r: DailyStep)
    requires
        sum_question_counts(summary_views(summaries@)) <= usize::MAX,
        sum_total_chars(summary_views(summaries@)) <= usize::MAX,
    ensures
        summaries.len() == 0 ==> r is Reply && r->Reply_0@ == no_sessions_text(dir@),
        summaries.len() > 0 && !(is_configured(settings@.zhihu_cookie) && is_configured(settings@.zhihu_xsrf))
            ==> r is Reply && r->Reply_0@ == daily_fallback_text(summaries@, total_count as nat, limit as nat),
        summaries.len() > 0 && is_configured(settings@.zhihu_cookie) && is_configured(settings@.zhihu_xsrf)
            ==> match r {
            DailyStep::Fetch(h) => is_header_value_text(encode_utf8(credential_text(settings@.zhihu_cookie)))
                && is_header_value_text(encode_utf8(credential_text(settings@.zhihu_xsrf)))
                && header_entries(h) == zhihu_headers(
                encode_utf8(credential_text(settings@.zhihu_cookie)),
                encode_utf8(credential_text(settings@.zhihu_xsrf)),
            ),
            DailyStep::BadCookie => !is_header_value_text(encode_utf8(credential_text(settings@.zhihu_cookie))),
            DailyStep::BadXsrf => is_header_value_text(encode_utf8(credential_text(settings@.zhihu_cookie)))
                && !is_header_value_text(encode_utf8(credential_text(settings@.zhihu_xsrf))),
            DailyStep::Reply(_) => false,
        },
{
    if summaries.len() == 0 {
        return DailyStep::Reply(no_sessions_message(dir));
    }
    if !has_zhihu_credentials(settings) {
        return DailyStep::Reply(daily_fallback_report(summaries, total_count, limit));
    }
    let cookie = credential(&settings.zhihu_cookie);
    let xsrf = credential(&settings.zhihu_xsrf);
    if !is_valid_header_value(cookie) {
        return DailyStep::BadCookie;
    }
    if !is_valid_header_value(xsrf) {
        return DailyStep::BadXsrf;
    }
    DailyStep::Fetch(build_headers(cookie, xsrf))
}

/// The daily brief from the creator API's answer `body`; `None` when the
/// answer is not JSON.
pub fn daily_brief(body: String, summaries: &[SessionSummary], total_count: usize, limit: usize) -> (r:
    Option<String>)
    ensures
        match r {
            Some(t) => parsed_json(body@) is Some && exists|qs: Seq<[String; 2]>|
                question_pairs(qs) == recommended_questions(parsed_json(body@).unwrap()) && t@
                    == zhihu_brief_text(qs, summary_views(summaries@), total_count as nat, limit as nat),
            None => parsed_json(body@) is None,
        },
{
    match try_get_question_list(body) {
        Some(questions) => Some(format_zhihu_for_ai(questions.as_slice(), summaries, total_count, limit)),
        None => None,
    }
}

} // verus!
