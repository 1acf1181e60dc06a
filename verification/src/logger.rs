//! The text of the server's log: the banner of a session, and the entries
//! for each request and response. Writing the file is the caller's part.
use vstd::prelude::*;
use crate::text::{byte_len, nat_str, pad2_str, push_pad2, push_u64, push_usize};

verus! {

/// The longest response, in bytes, that the log keeps whole.
pub const MAX_RESPONSE_LEN: usize = 600;

/// The size, in bytes, above which the log file is started afresh.
pub const MAX_FILE_SIZE: u64 = 5 * 1024 * 1024;

/// Whether a log file of `size` bytes is to be started afresh.
pub fn log_needs_reset(size: u64) -> (r: bool)
    ensures
        r == (size > MAX_FILE_SIZE),
{
    size > MAX_FILE_SIZE
}

/// `第{days}天 {hh}:{mm}:{ss}` for a time in seconds since the epoch.
pub open spec fn clock_text(secs: nat) -> Seq<char> {
    let t = secs % 86400;
    "第"@ + nat_str(secs / 86400) + "天 "@ + pad2_str((t / 3600) as int) + ":"@ + pad2_str(
        ((t % 3600) / 60) as int,
    ) + ":"@ + pad2_str((t % 60) as int)
}

/// The time of day the log stamps its entries with.
pub fn day_clock_text(secs: u64) -> (r: String)
    ensures
        r@ == clock_text(secs as nat),
{
    let t = secs % 86400;
    let mut r = String::new();
    r.append("第");
    push_u64(&mut r, secs / 86400);
    r.append("天 ");
    push_pad2(&mut r, (t / 3600) as i64);
    r.append(":");
    push_pad2(&mut r, ((t % 3600) / 60) as i64);
    r.append(":");
    push_pad2(&mut r, (t % 60) as i64);
    assert(r@ =~= clock_text(secs as nat));
    r
}

/// The banner that opens a session in the log.
pub open spec fn banner_text(now: Seq<char>) -> Seq<char> {
    "\n═════════════════════════════════════════════════\n"@ + "  MCP Session 开始 — "@ + now + "\n"@ + "═════════════════════════════════════════════════\n\n"@
}

/// The banner that opens a session in the log.
pub fn log_banner(now: &str) -> (r: String)
    ensures
        r@ == banner_text(now@),
{
    let mut r = String::new();
    r.append("\n═════════════════════════════════════════════════\n");
    r.append("  MCP Session 开始 — ");
    r.append(now);
    r.append("\n");
    r.append("═════════════════════════════════════════════════\n\n");
    assert(r@ =~= banner_text(now@));
    r
}

/// The log entry for a request: its text whole.
pub open spec fn input_entry_text(now: Seq<char>, raw: Seq<char>) -> Seq<char> {
    "["@ + now + "] ⬅ IN  ──────────────────────\n"@ + raw + "\n"@ + "\n"@
}

/// The log entry for a request.
pub fn log_input_entry(now: &str, raw_json: &str) -> (r: String)
    ensures
        r@ == input_entry_text(now@, raw_json@),
{
    let mut r = String::new();
    r.append("[");
    r.append(now);
    r.append("] ⬅ IN  ──────────────────────\n");
    r.append(raw_json);
    r.append("\n");
    r.append("\n");
    assert(r@ =~= input_entry_text(now@, raw_json@));
    r
}

/// The body of a response's log entry: the text whole when it takes at most
/// 600 bytes, else its first 600 characters, `...`, and its full size.
pub open spec fn output_body_text(raw: Seq<char>) -> Seq<char> {
    if byte_len(raw) > MAX_RESPONSE_LEN {
        raw.take(
            if raw.len() < MAX_RESPONSE_LEN {
                raw.len() as int
            } else {
                MAX_RESPONSE_LEN as int
            },
        ) + "...\n"@ + "   (已截断，完整长度: "@ + nat_str(byte_len(raw)) + " 字)\n"@
    } else {
        raw + "\n"@
    }
}

/// The log entry for a response.
pub open spec fn output_entry_text(now: Seq<char>, raw: Seq<char>) -> Seq<char> {
    "["@ + now + "] ➡ OUT ──────────────────────\n"@ + output_body_text(raw) + "\n"@
}

/// The log entry for a response, long responses cut short.
pub fn log_output_entry(now: &str, raw_json: &str) -> (r: String)
    ensures
        r@ == output_entry_text(now@, raw_json@),
{
    let mut r = String::new();
    r.append("[");
    r.append(now);
    r.append("] ➡ OUT ──────────────────────\n");
    let ghost head = r@;
    let size = raw_json.as_bytes().len();
    if size > MAX_RESPONSE_LEN {
        let n = raw_json.unicode_len();
        let keep: usize = if n < MAX_RESPONSE_LEN {
            n
        } else {
            MAX_RESPONSE_LEN
        };
        r.append(raw_json.substring_char(0, keep));
        r.append("...\n");
        r.append("   (已截断，完整长度: ");
        push_usize(&mut r, size);
        r.append(" 字)\n");
        assert(raw_json@.subrange(0, keep as int) =~= raw_json@.take(keep as int));
    } else {
        r.append(raw_json);
        r.append("\n");
    }
    r.append("\n");
    assert(r@ =~= output_entry_text(now@, raw_json@));
    r
}

} // verus!
