use aichdl::ds_parser::{
    find_session_detail, format_timestamp, message_text, recent_summaries, session_detail,
    session_summary, session_turns, sort_by_update_desc, summarize_all, user_questions,
};
use aichdl::types::{
    BizData, ChatData, ChatHistory, ChatMessage, ChatSession, Fragment, SessionSummary,
};

fn frag(t: &str, c: &str) -> Fragment {
    Fragment { frag_type: t.to_string(), content: c.to_string() }
}

fn msg(id: i64, role: &str, frags: Vec<Fragment>) -> ChatMessage {
    ChatMessage { message_id: id, parent_id: None, role: role.to_string(), fragments: frags }
}

fn history(title: Option<&str>, updated_at: Option<i64>, msgs: Vec<ChatMessage>) -> ChatHistory {
    ChatHistory {
        data: ChatData {
            biz_data: BizData {
                chat_session: ChatSession {
                    id: "s".to_string(),
                    title: title.map(|t| t.to_string()),
                    updated_at,
                },
                chat_messages: msgs,
            },
        },
    }
}

fn summary(title: &str, updated_secs: Option<i64>) -> SessionSummary {
    SessionSummary {
        title: title.to_string(),
        updated_at: format_timestamp(updated_secs),
        updated_secs,
        question_count: 1,
        sample_questions: vec![],
        total_chars: 0,
    }
}

#[test]
fn timestamp_is_day_and_clock() {
    assert_eq!(format_timestamp(None), "未知时间");
    assert_eq!(format_timestamp(Some(0)), "第0天 00:00");
    assert_eq!(format_timestamp(Some(86400 * 3 + 3600 * 5 + 60 * 7 + 59)), "第3天 05:07");
    assert_eq!(format_timestamp(Some(1_727_000_000)), "第19988天 10:13");
}

#[test]
fn timestamp_before_epoch_rounds_toward_zero() {
    // -61 s: day 0, remainder -61 s, hour 0, minute -1
    assert_eq!(format_timestamp(Some(-61)), "第0天 00:-1");
    let secs: i64 = -90061;
    let t = secs % 86400;
    let expected = format!("第{}天 {:02}:{:02}", secs / 86400, t / 3600, (t % 3600) / 60);
    assert_eq!(format_timestamp(Some(secs)), expected);
}

#[test]
fn questions_are_trimmed_first_requests_of_user_messages() {
    let msgs = vec![
        msg(1, "USER", vec![frag("THINK", "x"), frag("REQUEST", "  第一问  "), frag("REQUEST", "ignored")]),
        msg(2, "ASSISTANT", vec![frag("REQUEST", "not a question")]),
        msg(3, "USER", vec![frag("TEXT", "no request")]),
        msg(4, "USER", vec![frag("REQUEST", "\n第二问\t")]),
    ];
    assert_eq!(user_questions(&msgs), vec!["第一问".to_string(), "第二问".to_string()]);
}

#[test]
fn summary_counts_and_samples() {
    let long = "问".repeat(100); // 300 bytes
    let h = history(
        Some("Rust 学习"),
        Some(86400),
        vec![
            msg(1, "USER", vec![frag("REQUEST", "a")]),
            msg(2, "USER", vec![frag("REQUEST", &long)]),
            msg(3, "USER", vec![frag("REQUEST", "ccc")]),
            msg(4, "USER", vec![frag("REQUEST", "dddd")]),
        ],
    );
    let s = session_summary(&h).unwrap();
    assert_eq!(s.title, "Rust 学习");
    assert_eq!(s.updated_at, "第1天 00:00");
    assert_eq!(s.question_count, 4);
    assert_eq!(s.updated_secs, Some(86400));
    assert_eq!(s.total_chars, 1 + 300 + 3 + 4);
    assert_eq!(s.sample_questions, vec!["a".to_string(), format!("{}...", "问".repeat(80)), "ccc".to_string()]);
}

#[test]
fn summary_of_session_without_questions_is_none() {
    let h = history(None, None, vec![msg(1, "ASSISTANT", vec![frag("TEXT", "hi")])]);
    assert!(session_summary(&h).is_none());
    let h = history(None, None, vec![msg(1, "USER", vec![frag("REQUEST", "q")])]);
    let s = session_summary(&h).unwrap();
    assert_eq!(s.title, "未命名");
    assert_eq!(s.updated_at, "未知时间");
    assert_eq!(s.updated_secs, None);
}

#[test]
fn a_sample_of_eighty_characters_is_kept_whole() {
    let q = "问".repeat(80);
    let h = history(None, None, vec![msg(1, "USER", vec![frag("REQUEST", &q)])]);
    assert_eq!(session_summary(&h).unwrap().sample_questions, vec![q]);
}

#[test]
fn sort_goes_from_latest_down_and_is_stable() {
    let v = vec![
        summary("a", Some(86400)),
        summary("b", Some(86400 * 3)),
        summary("c", Some(86400)),
        summary("d", Some(86400 * 2)),
    ];
    let titles: Vec<String> = sort_by_update_desc(v).into_iter().map(|s| s.title).collect();
    assert_eq!(titles, vec!["b", "d", "a", "c"]);
}

#[test]
fn times_are_compared_as_numbers() {
    let v = vec![summary("nine", Some(86400 * 9999)), summary("ten", Some(86400 * 10000))];
    let titles: Vec<String> = sort_by_update_desc(v).into_iter().map(|s| s.title).collect();
    assert_eq!(titles, vec!["ten", "nine"]);
    let v = vec![summary("early", Some(60)), summary("late", Some(61))];
    let titles: Vec<String> = sort_by_update_desc(v).into_iter().map(|s| s.title).collect();
    assert_eq!(titles, vec!["late", "early"]);
}

#[test]
fn unknown_times_come_last() {
    let v = vec![summary("unknown", None), summary("old", Some(-86400)), summary("new", Some(0))];
    let titles: Vec<String> = sort_by_update_desc(v).into_iter().map(|s| s.title).collect();
    assert_eq!(titles, vec!["new", "old", "unknown"]);
}

#[test]
fn recent_summaries_keep_the_latest_within_limit() {
    let q = |t: &str| vec![msg(1, "USER", vec![frag("REQUEST", t)])];
    let hs = vec![
        history(Some("old"), Some(86400), q("1")),
        history(Some("empty"), Some(86400 * 5), vec![]),
        history(Some("new"), Some(86400 * 3), q("2")),
        history(Some("mid"), Some(86400 * 2), q("3")),
    ];
    assert_eq!(summarize_all(&hs).len(), 3);
    let titles: Vec<String> = recent_summaries(&hs, 2).into_iter().map(|s| s.title).collect();
    assert_eq!(titles, vec!["new", "mid"]);
    assert_eq!(recent_summaries(&hs, 10).len(), 3);
    assert!(recent_summaries(&hs, 0).is_empty());
}

#[test]
fn message_text_joins_request_and_text_fragments() {
    let frags = vec![frag("REQUEST", "问"), frag("THINK", "想"), frag("TEXT", "答")];
    assert_eq!(message_text(&frags), "问\n答");
}

#[test]
fn turns_skip_blank_and_other_roles() {
    let long = "x".repeat(600);
    let msgs = vec![
        msg(1, "USER", vec![frag("REQUEST", "hello")]),
        msg(2, "SYSTEM", vec![frag("TEXT", "sys")]),
        msg(3, "ASSISTANT", vec![frag("THINK", "hidden"), frag("TEXT", "  ")]),
        msg(4, "ASSISTANT", vec![frag("TEXT", &long)]),
    ];
    let turns = session_turns(&msgs);
    assert_eq!(turns.len(), 2);
    assert_eq!(turns[0].role, "USER");
    assert_eq!(turns[0].content, "hello");
    assert_eq!(turns[1].role, "ASSISTANT");
    assert_eq!(turns[1].content, format!("{}...", "x".repeat(500)));
}

#[test]
fn detail_of_a_session() {
    let h = history(Some("T"), Some(3600), vec![msg(1, "USER", vec![frag("REQUEST", "q")])]);
    let d = session_detail(&h);
    assert_eq!(d.title, "T");
    assert_eq!(d.updated_at, "第0天 01:00");
    assert_eq!(d.turns.len(), 1);
}

#[test]
fn find_detail_takes_the_first_match() {
    let q = vec![msg(1, "USER", vec![frag("REQUEST", "q")])];
    let hs = vec![
        Some(history(Some("Python 基础"), None, q.clone_msgs())),
        Some(history(Some("Rust 所有权"), None, q.clone_msgs())),
        Some(history(Some("Rust 生命周期"), None, q.clone_msgs())),
    ];
    assert_eq!(find_session_detail(&hs, "Rust").unwrap().title, "Rust 所有权");
    assert_eq!(find_session_detail(&hs, "").unwrap().title, "Python 基础");
    assert!(find_session_detail(&hs, "Go").is_none());
}

#[test]
fn find_detail_skips_an_unreadable_export() {
    let hs = vec![
        Some(history(Some("A"), None, vec![])),
        None,
        Some(history(Some("Rust"), None, vec![])),
    ];
    assert_eq!(find_session_detail(&hs, "Rust").unwrap().title, "Rust");
    assert!(find_session_detail(&hs, "Go").is_none());
    assert_eq!(find_session_detail(&hs, "A").unwrap().title, "A");
}

trait CloneMsgs {
    fn clone_msgs(&self) -> Vec<ChatMessage>;
}

impl CloneMsgs for Vec<ChatMessage> {
    fn clone_msgs(&self) -> Vec<ChatMessage> {
        self.iter()
            .map(|m| ChatMessage {
                message_id: m.message_id,
                parent_id: m.parent_id,
                role: m.role.clone(),
                fragments: m
                    .fragments
                    .iter()
                    .map(|f| Fragment { frag_type: f.frag_type.clone(), content: f.content.clone() })
                    .collect(),
            })
            .collect()
    }
}
