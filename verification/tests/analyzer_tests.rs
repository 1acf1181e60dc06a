use aichdl::analyzer::{format_session_detail, format_session_list, format_zhihu_for_ai, round_thousands_exec};
use aichdl::types::{ConversationTurn, SessionDetail, SessionSummary};

fn summary(title: &str, updated: &str, count: usize, samples: &[&str], chars: usize) -> SessionSummary {
    SessionSummary {
        title: title.to_string(),
        updated_at: updated.to_string(),
        updated_secs: None,
        question_count: count,
        sample_questions: samples.iter().map(|s| s.to_string()).collect(),
        total_chars: chars,
    }
}

fn expected_list(summaries: &[SessionSummary], total_count: usize, limit: usize) -> String {
    let mut output = String::new();
    output.push_str(&format!("# 会话概览（共 {} 个会话，展示最近 {} 个）\n\n", total_count, limit));
    output.push_str("## 全局统计\n\n");
    output.push_str(&format!("- 目录中总会话数: {}\n", total_count));
    output.push_str(&format!("- 已加载摘要: {} 个\n", summaries.len()));
    let total_q: usize = summaries.iter().map(|s| s.question_count).sum();
    output.push_str(&format!("- 已加载会话总提问数: {}\n", total_q));
    let total_chars: usize = summaries.iter().map(|s| s.total_chars).sum();
    output.push_str(&format!(
        "- 已加载会话提问总字数: {} (~{:.0}KB)\n\n",
        total_chars,
        total_chars as f64 / 1000.0
    ));
    output.push_str("## 会话列表\n\n");
    for (i, s) in summaries.iter().enumerate() {
        output.push_str(&format!("### {}. {}\n", i + 1, s.title));
        output.push_str(&format!("- 时间: {}\n", s.updated_at));
        output.push_str(&format!("- 提问数: {}\n", s.question_count));
        output.push_str("- 提问示例:\n");
        for q in &s.sample_questions {
            output.push_str(&format!("  - \"{}\"\n", q));
        }
        output.push('\n');
    }
    if total_count > limit {
        output.push_str(&format!(
            "⚠ 仅展示了最近 {} / {} 个会话。如需查看更多，请用 `zhihu_session` 按标题关键词搜索指定会话的详情。\n",
            summaries.len(),
            total_count
        ));
    }
    output
}

#[test]
fn kilobytes_round_like_float_formatting() {
    for n in (0usize..20_000).chain([499, 500, 501, 1500, 2500, 3500, 999_500, 1_000_500]) {
        assert_eq!(round_thousands_exec(n).to_string(), format!("{:.0}", n as f64 / 1000.0), "{}", n);
    }
}

#[test]
fn session_list_exact_text() {
    let s = vec![summary("Rust", "第1天 00:00", 2, &["q1", "q2"], 1500)];
    let out = format_session_list(&s, 1, 50);
    assert_eq!(
        out,
        "# 会话概览（共 1 个会话，展示最近 50 个）\n\n## 全局统计\n\n- 目录中总会话数: 1\n- 已加载摘要: 1 个\n- 已加载会话总提问数: 2\n- 已加载会话提问总字数: 1500 (~2KB)\n\n## 会话列表\n\n### 1. Rust\n- 时间: 第1天 00:00\n- 提问数: 2\n- 提问示例:\n  - \"q1\"\n  - \"q2\"\n\n"
    );
}

#[test]
fn session_list_notes_hidden_sessions() {
    let s = vec![
        summary("A", "t1", 3, &["x"], 2500),
        summary("B", "t2", 1, &[], 10),
    ];
    let out = format_session_list(&s, 7, 2);
    assert_eq!(out, expected_list(&s, 7, 2));
    assert!(out.ends_with("⚠ 仅展示了最近 2 / 7 个会话。如需查看更多，请用 `zhihu_session` 按标题关键词搜索指定会话的详情。\n"));
    let empty: Vec<SessionSummary> = vec![];
    assert_eq!(format_session_list(&empty, 0, 50), expected_list(&empty, 0, 50));
}

#[test]
fn session_detail_exact_text() {
    let d = SessionDetail {
        title: "T".to_string(),
        updated_at: "第2天 03:04".to_string(),
        turns: vec![
            ConversationTurn { role: "USER".to_string(), content: "问".to_string() },
            ConversationTurn { role: "ASSISTANT".to_string(), content: "答".to_string() },
        ],
    };
    assert_eq!(
        format_session_detail(&d),
        "# T\n\n更新时间: 第2天 03:04\n\n---\n\n### ❓ 用户提问\n问\n\n### 🤖 AI 回复\n答\n\n\n---\n*共 2 轮对话，内容已截断至每段 500 字*\n"
    );
}

#[test]
fn zhihu_brief_lists_at_most_ten_sessions() {
    let s: Vec<SessionSummary> =
        (0..12).map(|i| summary(&format!("S{}", i), "t", i, &["q"], 0)).collect();
    let qs = vec![["101".to_string(), "问题一".to_string()], ["102".to_string(), "问题二".to_string()]];
    let out = format_zhihu_for_ai(&qs, &s, 30, 12);
    assert!(out.starts_with("# 知乎日常 — 原始数据\n\n## 用户会话上下文\n\n以下是你最近和最频繁的 DS 对话主题摘要，请在匹配时参考这些上下文:\n\n1. **S0** (0 条提问)\n   - \"q\"\n2. **S1**"));
    assert!(out.contains("10. **S9** (9 条提问)\n   - \"q\"\n\n## 知乎推荐问题\n\n共拉取 2 个推荐问题（关联度需由你结合上下文判断）:\n\n- `101` | **问题一**\n- `102` | **问题二**\n\n---\n## 给你的指令\n\n"));
    assert!(!out.contains("S10"));
    assert!(out.ends_with("6. 格式: ## 今日回答 / Q: ... / A: ... / ## 今日提问\n\n*会话共 30 个（本次加载 12 个），如需某个会话的完整详情请调用 `zhihu_session`。*\n"));
}
