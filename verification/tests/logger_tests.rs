use aichdl::logger::{day_clock_text, log_banner, log_input_entry, log_needs_reset, log_output_entry};

#[test]
fn clock_text_is_day_and_time() {
    assert_eq!(day_clock_text(0), "第0天 00:00:00");
    assert_eq!(day_clock_text(86400 * 2 + 3661), "第2天 01:01:01");
}

#[test]
fn banner_and_input_entry() {
    let bar = "═".repeat(49);
    assert_eq!(log_banner("N"), format!("\n{}\n  MCP Session 开始 — N\n{}\n\n", bar, bar));
    assert_eq!(log_input_entry("N", "{}"), format!("[N] ⬅ IN  {}\n{{}}\n\n", "─".repeat(22)));
}

#[test]
fn short_output_is_kept_whole() {
    assert_eq!(log_output_entry("N", "ok"), format!("[N] ➡ OUT {}\nok\n\n", "─".repeat(22)));
}

#[test]
fn long_output_is_cut_to_600_chars() {
    let raw = "中".repeat(700);
    let out = log_output_entry("N", &raw);
    let expected = format!(
        "[N] ➡ OUT {}\n{}...\n   (已截断，完整长度: 2100 字)\n\n",
        "─".repeat(22),
        "中".repeat(600)
    );
    assert_eq!(out, expected);
    // 300 CJK characters take 900 bytes: over the limit, but all are kept
    let raw = "中".repeat(300);
    assert!(log_output_entry("N", &raw).contains(&format!("{}...\n   (已截断，完整长度: 900 字)", raw)));
}

#[test]
fn log_reset_above_five_mebibytes() {
    assert!(!log_needs_reset(5 * 1024 * 1024));
    assert!(log_needs_reset(5 * 1024 * 1024 + 1));
}
