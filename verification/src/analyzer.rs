//! The Markdown reports that the tool hands to the assistant: the session
//! overview, one session's detail, and the daily Zhihu brief.
use vstd::prelude::*;
use crate::ds_parser::summary_views;
use crate::text::{nat_str, push_usize, str_eq, string_views};
use vstd::seq_lib::lemma_concat_associative;
use crate::types::{
    ConversationTurn, DetailView, SessionDetail, SessionSummary, SummaryView, TurnView,
};

verus! {

// ---------------------------------------------------------------------
// Shared pieces
// ---------------------------------------------------------------------

/// One line `{prefix}{q}"` per question.
pub open spec fn quoted_lines(qs: Seq<Seq<char>>, prefix: Seq<char>) -> Seq<char>
    decreases qs.len(),
{
    if qs.len() == 0 {
        Seq::empty()
    } else {
        quoted_lines(qs.drop_last(), prefix) + prefix + qs.last() + "\"\n"@
    }
}

fn push_quoted_lines(out: &mut String, qs: &Vec<String>, prefix: &str)
    ensures
        final(out)@ == old(out)@ + quoted_lines(string_views(qs@), prefix@),
{
    let ghost start = out@;
    let mut i: usize = 0;
    assert(out@ =~= start + quoted_lines(string_views(qs@.take(0)), prefix@));
    while i < qs.len()
        invariant
            i <= qs.len(),
            out@ == start + quoted_lines(string_views(qs@.take(i as int)), prefix@),
        decreases qs.len() - i,
    {
        out.append(prefix);
        out.append(qs[i].as_str());
        out.append("\"\n");
        proof {
            let v = string_views(qs@.take(i + 1));
            assert(v.drop_last() =~= string_views(qs@.take(i as int)));
            assert(v.last() == qs@[i as int]@);
            assert(out@ =~= start + quoted_lines(v, prefix@));
        }
        i = i + 1;
    }
    assert(qs@.take(qs.len() as int) =~= qs@);
}

/// The sum of the summaries' question counts.
pub open spec fn sum_question_counts(s: Seq<SummaryView>) -> nat
    decreases s.len(),
{
    if s.len() == 0 {
        0
    } else {
        sum_question_counts(s.drop_last()) + s.last().question_count
    }
}

/// The sum of the summaries' question sizes.
pub open spec fn sum_total_chars(s: Seq<SummaryView>) -> nat
    decreases s.len(),
{
    if s.len() == 0 {
        0
    } else {
        sum_total_chars(s.drop_last()) + s.last().total_chars
    }
}

proof fn lemma_sums_monotone(s: Seq<SummaryView>, i: int)
    requires
        0 <= i <= s.len(),
    ensures
        sum_question_counts(s.take(i)) <= sum_question_counts(s),
        sum_total_chars(s.take(i)) <= sum_total_chars(s),
    decreases s.len() - i,
{
    if i < s.len() {
        lemma_sums_monotone(s, i + 1);
        assert(s.take(i + 1).drop_last() =~= s.take(i));
    } else {
        assert(s.take(i) =~= s);
    }
}

/// `n / 1000` rounded to the nearest integer, ties to the even one (what
/// `{:.0}` prints for `n as f64 / 1000.0`).
pub open spec fn round_thousands(n: nat) -> nat {
    let q = n / 1000;
    let r = n % 1000;
    if r < 500 {
        q
    } else if r > 500 {
        q + 1
    } else if q % 2 == 0 {
        q
    } else {
        q + 1
    }
}

/// `n / 1000` rounded to the nearest integer, ties to the even one.
pub fn round_thousands_exec(n: usize) -> (r: usize)
    ensures
        r == round_thousands(n as nat),
{
    let q = n / 1000;
    let m = n % 1000;
    if m < 500 {
        q
    } else if m > 500 {
        q + 1
    } else if q % 2 == 0 {
        q
    } else {
        q + 1
    }
}

// ---------------------------------------------------------------------
// The session overview
// ---------------------------------------------------------------------

/// The head of the overview: counts and sizes.
pub open spec fn list_header(total: nat, limit: nat, loaded: nat, questions: nat, chars: nat) -> Seq<
    char,
> {
    "# 会话概览（共 "@ + nat_str(total) + " 个会话，展示最近 "@ + nat_str(limit) + " 个）\n\n"@
        + "## 全局统计\n\n"@ + "- 目录中总会话数: "@ + nat_str(total) + "\n"@ + "- 已加载摘要: "@
        + nat_str(loaded) + " 个\n"@ + "- 已加载会话总提问数: "@ + nat_str(questions) + "\n"@
        + "- 已加载会话提问总字数: "@ + nat_str(chars) + " (~"@ + nat_str(round_thousands(chars))
        + "KB)\n\n"@ + "## 会话列表\n\n"@
}

/// The overview's entry for the `k`-th summary.
pub open spec fn list_entry(k: nat, s: SummaryView) -> Seq<char> {
    "### "@ + nat_str(k) + ". "@ + s.title + "\n"@ + "- 时间: "@ + s.updated_at + "\n"@
        + "- 提问数: "@ + nat_str(s.question_count) + "\n"@ + "- 提问示例:\n"@ + quoted_lines(
        s.sample_questions,
        "  - \""@,
    ) + "\n"@
}

/// Adding a sample question to a summary adds exactly one quoted line for
/// it to the overview's entry, after the lines of the earlier samples: so
/// the entry lists every sample question, in order.
pub proof fn lemma_list_entry_lists_each_sample(k: nat, s: SummaryView, q: Seq<char>)
    ensures
        list_entry(k, SummaryView { sample_questions: s.sample_questions.push(q), ..s })
            == list_entry(k, s).drop_last() + "  - \""@ + q + "\"\n"@ + "\n"@,
        list_entry(k, s).last() == '\n',
{
    reveal_strlit("\n");
    let p = "  - \""@;
    let t = SummaryView { sample_questions: s.sample_questions.push(q), ..s };
    assert(t.sample_questions.drop_last() =~= s.sample_questions);
    assert(quoted_lines(t.sample_questions, p) == quoted_lines(s.sample_questions, p) + p + q
        + "\"\n"@);
    let head = "### "@ + nat_str(k) + ". "@ + s.title + "\n"@ + "- 时间: "@ + s.updated_at + "\n"@
        + "- 提问数: "@ + nat_str(s.question_count) + "\n"@ + "- 提问示例:\n"@;
    assert(list_entry(k, s) =~= head + quoted_lines(s.sample_questions, p) + "\n"@);
    assert(list_entry(k, s).drop_last() =~= head + quoted_lines(s.sample_questions, p));
    assert(list_entry(k, t) =~= list_entry(k, s).drop_last() + p + q + "\"\n"@ + "\n"@);
}

/// The overview's entries, numbered from 1.
pub open spec fn list_entries(s: Seq<SummaryView>) -> Seq<char>
    decreases s.len(),
{
    if s.len() == 0 {
        Seq::empty()
    } else {
        list_entries(s.drop_last()) + list_entry(s.len(), s.last())
    }
}

/// The overview's closing note, present when not every session is shown.
pub open spec fn list_footer(total: nat, limit: nat, loaded: nat) -> Seq<char> {
    if total > limit {
        "⚠ 仅展示了最近 "@ + nat_str(loaded) + " / "@ + nat_str(total)
            + " 个会话。如需查看更多，请用 `zhihu_session` 按标题关键词搜索指定会话的详情。\n"@
    } else {
        Seq::empty()
    }
}

/// The whole overview.
pub open spec fn session_list_text(s: Seq<SummaryView>, total: nat, limit: nat) -> Seq<char> {
    list_header(total, limit, s.len(), sum_question_counts(s), sum_total_chars(s)) + list_entries(s)
        + list_footer(total, limit, s.len())
}

fn push_list_header(
    out: &mut String,
    total: usize,
    limit: usize,
    loaded: usize,
    questions: usize,
    chars: usize,
)
    ensures
        final(out)@ == old(out)@ + list_header(
            total as nat,
            limit as nat,
            loaded as nat,
            questions as nat,
            chars as nat,
        ),
{
    let ghost s0 = out@;
    let kb = round_thousands_exec(chars);
    out.append("# 会话概览（共 ");
    let ghost mut acc = "# 会话概览（共 "@;
    push_usize(out, total);
    proof { lemma_concat_associative(s0, acc, nat_str(total as nat)); acc = acc + nat_str(total as nat); }
    out.append(" 个会话，展示最近 ");
    proof { lemma_concat_associative(s0, acc, " 个会话，展示最近 "@); acc = acc + " 个会话，展示最近 "@; }
    push_usize(out, limit);
    proof { lemma_concat_associative(s0, acc, nat_str(limit as nat)); acc = acc + nat_str(limit as nat); }
    out.append(" 个）\n\n");
    proof { lemma_concat_associative(s0, acc, " 个）\n\n"@); acc = acc + " 个）\n\n"@; }
    out.append("## 全局统计\n\n");
    proof { lemma_concat_associative(s0, acc, "## 全局统计\n\n"@); acc = acc + "## 全局统计\n\n"@; }
    out.append("- 目录中总会话数: ");
    proof { lemma_concat_associative(s0, acc, "- 目录中总会话数: "@); acc = acc + "- 目录中总会话数: "@; }
    push_usize(out, total);
    proof { lemma_concat_associative(s0, acc, nat_str(total as nat)); acc = acc + nat_str(total as nat); }
    out.append("\n");
    proof { lemma_concat_associative(s0, acc, "\n"@); acc = acc + "\n"@; }
    out.append("- 已加载摘要: ");
    proof { lemma_concat_associative(s0, acc, "- 已加载摘要: "@); acc = acc + "- 已加载摘要: "@; }
    push_usize(out, loaded);
    proof { lemma_concat_associative(s0, acc, nat_str(loaded as nat)); acc = acc + nat_str(loaded as nat); }
    out.append(" 个\n");
    proof { lemma_concat_associative(s0, acc, " 个\n"@); acc = acc + " 个\n"@; }
    out.append("- 已加载会话总提问数: ");
    proof { lemma_concat_associative(s0, acc, "- 已加载会话总提问数: "@); acc = acc + "- 已加载会话总提问数: "@; }
    push_usize(out, questions);
    proof { lemma_concat_associative(s0, acc, nat_str(questions as nat)); acc = acc + nat_str(questions as nat); }
    out.append("\n");
    proof { lemma_concat_associative(s0, acc, "\n"@); acc = acc + "\n"@; }
    out.append("- 已加载会话提问总字数: ");
    proof { lemma_concat_associative(s0, acc, "- 已加载会话提问总字数: "@); acc = acc + "- 已加载会话提问总字数: "@; }
    push_usize(out, chars);
    proof { lemma_concat_associative(s0, acc, nat_str(chars as nat)); acc = acc + nat_str(chars as nat); }
    out.append(" (~");
    proof { lemma_concat_associative(s0, acc, " (~"@); acc = acc + " (~"@; }
    push_usize(out, kb);
    proof { lemma_concat_associative(s0, acc, nat_str(kb as nat)); acc = acc + nat_str(kb as nat); }
    out.append("KB)\n\n");
    proof { lemma_concat_associative(s0, acc, "KB)\n\n"@); acc = acc + "KB)\n\n"@; }
    out.append("## 会话列表\n\n");
    proof { lemma_concat_associative(s0, acc, "## 会话列表\n\n"@); acc = acc + "## 会话列表\n\n"@; }
    assert(acc == list_header(total as nat, limit as nat, loaded as nat, questions as nat, chars as nat));
}

fn push_list_entry(out: &mut String, k: usize, s: &SessionSummary)
    ensures
        final(out)@ == old(out)@ + list_entry(k as nat, s@),
{
    out.append("### ");
    push_usize(out, k);
    out.append(". ");
    out.append(s.title.as_str());
    out.append("\n");
    out.append("- 时间: ");
    out.append(s.updated_at.as_str());
    out.append("\n");
    out.append("- 提问数: ");
    push_usize(out, s.question_count);
    out.append("\n");
    out.append("- 提问示例:\n");
    push_quoted_lines(out, &s.sample_questions, "  - \"");
    out.append("\n");
    assert(out@ =~= old(out)@ + list_entry(k as nat, s@));
}

/// The session overview: totals, then one entry per summary, then a note
/// when more sessions exist than were shown.
pub fn format_session_list(summaries: &[SessionSummary], total_count: usize, limit: usize) -> (r:
    String)
    requires
        sum_question_counts(summary_views(summaries@)) <= usize::MAX,
        sum_total_chars(summary_views(summaries@)) <= usize::MAX,
    ensures
        r@ == session_list_text(summary_views(summaries@), total_count as nat, limit as nat),
{
    let ghost sv = summary_views(summaries@);
    let mut questions: usize = 0;
    let mut chars: usize = 0;
    let mut i: usize = 0;
    while i < summaries.len()
        invariant
            i <= summaries.len(),
            sv == summary_views(summaries@),
            sum_question_counts(sv) <= usize::MAX,
            sum_total_chars(sv) <= usize::MAX,
            questions == sum_question_counts(sv.take(i as int)),
            chars == sum_total_chars(sv.take(i as int)),
        decreases summaries.len() - i,
    {
        proof {
            assert(sv.take(i + 1).drop_last() =~= sv.take(i as int));
            lemma_sums_monotone(sv, i + 1);
        }
        questions = questions + summaries[i].question_count;
        chars = chars + summaries[i].total_chars;
        i = i + 1;
    }
    assert(sv.take(summaries.len() as int) =~= sv);
    let mut out = String::new();
    push_list_header(&mut out, total_count, limit, summaries.len(), questions, chars);
    let ghost head = out@;
    let mut k: usize = 0;
    while k < summaries.len()
        invariant
            k <= summaries.len(),
            sv == summary_views(summaries@),
            out@ == head + list_entries(sv.take(k as int)),
        decreases summaries.len() - k,
    {
        push_list_entry(&mut out, k + 1, &summaries[k]);
        proof {
            assert(sv.take(k + 1).drop_last() =~= sv.take(k as int));
            assert(out@ =~= head + list_entries(sv.take(k + 1)));
        }
        k = k + 1;
    }
    assert(sv.take(summaries.len() as int) =~= sv);
    let ghost body = out@;
    if total_count > limit {
        out.append("⚠ 仅展示了最近 ");
        push_usize(&mut out, summaries.len());
        out.append(" / ");
        push_usize(&mut out, total_count);
        out.append(" 个会话。如需查看更多，请用 `zhihu_session` 按标题关键词搜索指定会话的详情。\n");
    }
    assert(out@ =~= session_list_text(sv, total_count as nat, limit as nat));
    out
}

// ---------------------------------------------------------------------
// One session
// ---------------------------------------------------------------------

/// One turn of the detail, headed by who spoke.
pub open spec fn turn_text(t: TurnView) -> Seq<char> {
    if t.role == "USER"@ {
        "### ❓ 用户提问\n"@ + t.content + "\n\n"@
    } else {
        "### 🤖 AI 回复\n"@ + t.content + "\n\n"@
    }
}

/// The turns of the detail, in order.
pub open spec fn turns_text(ts: Seq<TurnView>) -> Seq<char>
    decreases ts.len(),
{
    if ts.len() == 0 {
        Seq::empty()
    } else {
        turns_text(ts.drop_last()) + turn_text(ts.last())
    }
}

/// The whole detail of a session.
pub open spec fn session_detail_text(d: DetailView) -> Seq<char> {
    "# "@ + d.title + "\n\n"@ + "更新时间: "@ + d.updated_at + "\n\n"@ + "---\n\n"@ + turns_text(
        d.turns,
    ) + "\n---\n*共 "@ + nat_str(d.turns.len()) + " 轮对话，内容已截断至每段 500 字*\n"@
}

fn push_turn(out: &mut String, t: &ConversationTurn)
    ensures
        final(out)@ == old(out)@ + turn_text(t@),
{
    if str_eq(t.role.as_str(), "USER") {
        out.append("### ❓ 用户提问\n");
    } else {
        out.append("### 🤖 AI 回复\n");
    }
    out.append(t.content.as_str());
    out.append("\n\n");
    assert(out@ =~= old(out)@ + turn_text(t@));
}

/// The detail of a session: title, time, then every turn headed by who
/// spoke, then the number of turns.
pub fn format_session_detail(detail: &SessionDetail) -> (r: String)
    ensures
        r@ == session_detail_text(detail@),
{
    let ghost ts = detail@.turns;
    let mut out = String::new();
    out.append("# ");
    out.append(detail.title.as_str());
    out.append("\n\n");
    out.append("更新时间: ");
    out.append(detail.updated_at.as_str());
    out.append("\n\n");
    out.append("---\n\n");
    let ghost head = out@;
    let mut i: usize = 0;
    assert(ts.take(0) =~= Seq::<TurnView>::empty());
    assert(out@ =~= head + turns_text(ts.take(0)));
    while i < detail.turns.len()
        invariant
            i <= detail.turns.len(),
            ts == detail@.turns,
            out@ == head + turns_text(ts.take(i as int)),
        decreases detail.turns.len() - i,
    {
        push_turn(&mut out, &detail.turns[i]);
        proof {
            assert(ts.take(i + 1).drop_last() =~= ts.take(i as int));
            assert(ts.take(i + 1).last() == detail.turns@[i as int]@);
            assert(out@ =~= head + turns_text(ts.take(i + 1)));
        }
        i = i + 1;
    }
    assert(ts.take(detail.turns.len() as int) =~= ts);
    out.append("\n---\n*共 ");
    push_usize(&mut out, detail.turns.len());
    out.append(" 轮对话，内容已截断至每段 500 字*\n");
    assert(out@ =~= session_detail_text(detail@));
    out
}

// ---------------------------------------------------------------------
// The daily Zhihu brief
// ---------------------------------------------------------------------

/// The brief's context entry for the `k`-th summary.
pub open spec fn context_entry(k: nat, s: SummaryView) -> Seq<char> {
    nat_str(k) + ". **"@ + s.title + "** ("@ + nat_str(s.question_count) + " 条提问)\n"@
        + quoted_lines(s.sample_questions, "   - \""@)
}

/// Adding a sample question to a summary adds exactly one quoted line for
/// it at the end of the brief's context entry: so the entry lists every
/// sample question, in order.
pub proof fn lemma_context_entry_lists_each_sample(k: nat, s: SummaryView, q: Seq<char>)
    ensures
        context_entry(k, SummaryView { sample_questions: s.sample_questions.push(q), ..s })
            == context_entry(k, s) + "   - \""@ + q + "\"\n"@,
{
    let p = "   - \""@;
    let t = SummaryView { sample_questions: s.sample_questions.push(q), ..s };
    assert(t.sample_questions.drop_last() =~= s.sample_questions);
    assert(context_entry(k, t) =~= context_entry(k, s) + p + q + "\"\n"@);
}

/// The brief's context entries, numbered from 1.
pub open spec fn context_entries(s: Seq<SummaryView>) -> Seq<char>
    decreases s.len(),
{
    if s.len() == 0 {
        Seq::empty()
    } else {
        context_entries(s.drop_last()) + context_entry(s.len(), s.last())
    }
}

/// The brief's line for one recommended question `[id, title]`.
pub open spec fn question_line(q: [String; 2]) -> Seq<char> {
    "- `"@ + q@[0]@ + "` | **"@ + q@[1]@ + "**\n"@
}

/// The brief's lines for the recommended questions, in order.
pub open spec fn question_lines(qs: Seq<[String; 2]>) -> Seq<char>
    decreases qs.len(),
{
    if qs.len() == 0 {
        Seq::empty()
    } else {
        question_lines(qs.drop_last()) + question_line(qs.last())
    }
}

/// The instructions that close the brief.
pub open spec fn ai_instructions() -> Seq<char> {
    "\n---\n"@ + "## 给你的指令\n\n"@ + "请根据以下 SKILL.md 规则处理上述数据:\n\n"@ + "1. 分析会话摘要，识别用户的**5-8 个核心兴趣领域**\n"@ + "2. 从知乎推荐中挑出与兴趣相关的 TOP 3 问题\n"@ + "3. 对每个匹配问题生成 **100 字 Markdown 回答**\n"@ + "4. 回答风格: 技术类偏工程实践、社会人文类点明矛盾、消费类以实际体验为依据\n"@ + "5. 从剩余问题中选一条用户可能会问的作为 **今日提问**\n"@ + "6. 格式: ## 今日回答 / Q: ... / A: ... / ## 今日提问\n"@
}

/// The number of sessions the brief describes: at most ten.
pub open spec fn context_count(n: nat) -> nat {
    if n < 10 {
        n
    } else {
        10
    }
}

/// The whole brief.
pub open spec fn zhihu_brief_text(
    questions: Seq<[String; 2]>,
    s: Seq<SummaryView>,
    total: nat,
    limit: nat,
) -> Seq<char> {
    "# 知乎日常 — 原始数据\n\n"@ + "## 用户会话上下文\n\n"@
        + "以下是你最近和最频繁的 DS 对话主题摘要，请在匹配时参考这些上下文:\n\n"@ + context_entries(
        s.take(context_count(s.len()) as int),
    ) + "\n"@ + "## 知乎推荐问题\n\n"@ + "共拉取 "@ + nat_str(questions.len())
        + " 个推荐问题（关联度需由你结合上下文判断）:\n\n"@ + question_lines(questions)
        + ai_instructions() + "\n*会话共 "@ + nat_str(total) + " 个（本次加载 "@ + nat_str(limit)
        + " 个），如需某个会话的完整详情请调用 `zhihu_session`。*\n"@
}

fn push_context_entry(out: &mut String, k: usize, s: &SessionSummary)
    ensures
        final(out)@ == old(out)@ + context_entry(k as nat, s@),
{
    push_usize(out, k);
    out.append(". **");
    out.append(s.title.as_str());
    out.append("** (");
    push_usize(out, s.question_count);
    out.append(" 条提问)\n");
    push_quoted_lines(out, &s.sample_questions, "   - \"");
    assert(out@ =~= old(out)@ + context_entry(k as nat, s@));
}

fn push_question_line(out: &mut String, q: &[String; 2])
    ensures
        final(out)@ == old(out)@ + question_line(*q),
{
    out.append("- `");
    out.append(q[0].as_str());
    out.append("` | **");
    out.append(q[1].as_str());
    out.append("**\n");
    assert(out@ =~= old(out)@ + question_line(*q));
}

fn push_ai_instructions(out: &mut String)
    ensures
        final(out)@ == old(out)@ + ai_instructions(),
{
    let ghost s0 = out@;
    out.append("\n---\n");
    let ghost mut acc = "\n---\n"@;
    out.append("## 给你的指令\n\n");
    proof { lemma_concat_associative(s0, acc, "## 给你的指令\n\n"@); acc = acc + "## 给你的指令\n\n"@; }
    out.append("请根据以下 SKILL.md 规则处理上述数据:\n\n");
    proof { lemma_concat_associative(s0, acc, "请根据以下 SKILL.md 规则处理上述数据:\n\n"@); acc = acc + "请根据以下 SKILL.md 规则处理上述数据:\n\n"@; }
    out.append("1. 分析会话摘要，识别用户的**5-8 个核心兴趣领域**\n");
    proof { lemma_concat_associative(s0, acc, "1. 分析会话摘要，识别用户的**5-8 个核心兴趣领域**\n"@); acc = acc + "1. 分析会话摘要，识别用户的**5-8 个核心兴趣领域**\n"@; }
    out.append("2. 从知乎推荐中挑出与兴趣相关的 TOP 3 问题\n");
    proof { lemma_concat_associative(s0, acc, "2. 从知乎推荐中挑出与兴趣相关的 TOP 3 问题\n"@); acc = acc + "2. 从知乎推荐中挑出与兴趣相关的 TOP 3 问题\n"@; }
    out.append("3. 对每个匹配问题生成 **100 字 Markdown 回答**\n");
    proof { lemma_concat_associative(s0, acc, "3. 对每个匹配问题生成 **100 字 Markdown 回答**\n"@); acc = acc + "3. 对每个匹配问题生成 **100 字 Markdown 回答**\n"@; }
    out.append("4. 回答风格: 技术类偏工程实践、社会人文类点明矛盾、消费类以实际体验为依据\n");
    proof { lemma_concat_associative(s0, acc, "4. 回答风格: 技术类偏工程实践、社会人文类点明矛盾、消费类以实际体验为依据\n"@); acc = acc + "4. 回答风格: 技术类偏工程实践、社会人文类点明矛盾、消费类以实际体验为依据\n"@; }
    out.append("5. 从剩余问题中选一条用户可能会问的作为 **今日提问**\n");
    proof { lemma_concat_associative(s0, acc, "5. 从剩余问题中选一条用户可能会问的作为 **今日提问**\n"@); acc = acc + "5. 从剩余问题中选一条用户可能会问的作为 **今日提问**\n"@; }
    out.append("6. 格式: ## 今日回答 / Q: ... / A: ... / ## 今日提问\n");
    proof { lemma_concat_associative(s0, acc, "6. 格式: ## 今日回答 / Q: ... / A: ... / ## 今日提问\n"@); acc = acc + "6. 格式: ## 今日回答 / Q: ... / A: ... / ## 今日提问\n"@; }
    assert(acc == ai_instructions());
}

/// The daily brief for the assistant: the context of up to ten sessions,
/// the recommended Zhihu questions as `id | title`, and what to do with them.
pub fn format_zhihu_for_ai(
    zhihu_questions: &[[String; 2]],
    summaries: &[SessionSummary],
    total_count: usize,
    limit: usize,
) -> (r: String)
    ensures
        r@ == zhihu_brief_text(zhihu_questions@, summary_views(summaries@), total_count as nat, limit as nat),
{
    let ghost sv = summary_views(summaries@);
    let ghost qs = zhihu_questions@;
    let mut out = String::new();
    out.append("# 知乎日常 — 原始数据\n\n");
    out.append("## 用户会话上下文\n\n");
    out.append("以下是你最近和最频繁的 DS 对话主题摘要，请在匹配时参考这些上下文:\n\n");
    let ghost s0 = out@;
    let shown: usize = if summaries.len() < 10 {
        summaries.len()
    } else {
        10
    };
    let mut k: usize = 0;
    assert(out@ =~= s0 + context_entries(sv.take(0)));
    while k < shown
        invariant
            k <= shown <= summaries.len(),
            sv == summary_views(summaries@),
            out@ == s0 + context_entries(sv.take(k as int)),
        decreases shown - k,
    {
        push_context_entry(&mut out, k + 1, &summaries[k]);
        proof {
            assert(sv.take(k + 1).drop_last() =~= sv.take(k as int));
            assert(out@ =~= s0 + context_entries(sv.take(k + 1)));
        }
        k = k + 1;
    }
    let ghost mut acc = context_entries(sv.take(shown as int));
    out.append("\n");
    proof { lemma_concat_associative(s0, acc, "\n"@); acc = acc + "\n"@; }
    out.append("## 知乎推荐问题\n\n");
    proof { lemma_concat_associative(s0, acc, "## 知乎推荐问题\n\n"@); acc = acc + "## 知乎推荐问题\n\n"@; }
    out.append("共拉取 ");
    proof { lemma_concat_associative(s0, acc, "共拉取 "@); acc = acc + "共拉取 "@; }
    push_usize(&mut out, zhihu_questions.len());
    proof { lemma_concat_associative(s0, acc, nat_str(qs.len())); acc = acc + nat_str(qs.len()); }
    out.append(" 个推荐问题（关联度需由你结合上下文判断）:\n\n");
    proof {
        lemma_concat_associative(s0, acc, " 个推荐问题（关联度需由你结合上下文判断）:\n\n"@);
        acc = acc + " 个推荐问题（关联度需由你结合上下文判断）:\n\n"@;
    }
    let ghost s1 = out@;
    let mut i: usize = 0;
    assert(out@ =~= s1 + question_lines(qs.take(0)));
    while i < zhihu_questions.len()
        invariant
            i <= zhihu_questions.len(),
            qs == zhihu_questions@,
            out@ == s1 + question_lines(qs.take(i as int)),
        decreases zhihu_questions.len() - i,
    {
        push_question_line(&mut out, &zhihu_questions[i]);
        proof {
            assert(qs.take(i + 1).drop_last() =~= qs.take(i as int));
            assert(out@ =~= s1 + question_lines(qs.take(i + 1)));
        }
        i = i + 1;
    }
    assert(qs.take(qs.len() as int) =~= qs);
    proof {
        lemma_concat_associative(s0, acc, question_lines(qs));
        acc = acc + question_lines(qs);
    }
    push_ai_instructions(&mut out);
    proof { lemma_concat_associative(s0, acc, ai_instructions()); acc = acc + ai_instructions(); }
    out.append("\n*会话共 ");
    proof { lemma_concat_associative(s0, acc, "\n*会话共 "@); acc = acc + "\n*会话共 "@; }
    push_usize(&mut out, total_count);
    proof { lemma_concat_associative(s0, acc, nat_str(total_count as nat)); acc = acc + nat_str(total_count as nat); }
    out.append(" 个（本次加载 ");
    proof { lemma_concat_associative(s0, acc, " 个（本次加载 "@); acc = acc + " 个（本次加载 "@; }
    push_usize(&mut out, limit);
    proof { lemma_concat_associative(s0, acc, nat_str(limit as nat)); acc = acc + nat_str(limit as nat); }
    out.append(" 个），如需某个会话的完整详情请调用 `zhihu_session`。*\n");
    proof {
        lemma_concat_associative(s0, acc, " 个），如需某个会话的完整详情请调用 `zhihu_session`。*\n"@);
        acc = acc + " 个），如需某个会话的完整详情请调用 `zhihu_session`。*\n"@;
    }
    assert(s0 + acc =~= zhihu_brief_text(qs, sv, total_count as nat, limit as nat));
    out
}

} // verus!
