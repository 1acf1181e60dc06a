//! What the tool reads out of DeepSeek exports: session summaries, the
//! most recent ones, and the detail of a session found by title.
//!
//! Reading the export directory is the caller's part; the functions here
//! take the exports already decoded.
use vstd::prelude::*;
use crate::text::{
    byte_len, contains, int_str, is_blank, join_lines, join_seq, occurs_at, pad2_str, push_i64,
    push_pad2, seq_contains, str_eq, string_views, trim, trim_seq, truncate, truncate_seq,
};
use crate::types::{
    ChatHistory, ChatMessage, ConversationTurn, DetailView, Fragment, SessionDetail, SessionSummary,
    SummaryView, TurnView,
};

verus! {

// ---------------------------------------------------------------------
// Timestamps
// ---------------------------------------------------------------------

/// Integer division rounding toward zero, as `/` on `i64` does.
pub open spec fn div_trunc(a: int, b: int) -> int {
    if a >= 0 {
        a / b
    } else {
        -((-a) / b)
    }
}

/// The remainder that goes with [`div_trunc`], as `%` on `i64` gives it.
pub open spec fn rem_trunc(a: int, b: int) -> int {
    a - b * div_trunc(a, b)
}

/// `第{days}天 {hh}:{mm}` for a time in seconds since the epoch, or
/// `未知时间` when there is none.
pub open spec fn timestamp_text(ts: Option<i64>) -> Seq<char> {
    match ts {
        Some(secs) => {
            let day = rem_trunc(secs as int, 86400);
            "第"@ + int_str(div_trunc(secs as int, 86400)) + "天 "@ + pad2_str(div_trunc(day, 3600))
                + ":"@ + pad2_str(div_trunc(rem_trunc(day, 3600), 60))
        },
        None => "未知时间"@,
    }
}

proof fn lemma_div_trunc(a: int, b: int)
    requires
        b > 0,
    ensures
        a >= 0 ==> div_trunc(a, b) == a / b,
        a >= 0 ==> 0 <= rem_trunc(a, b) < b,
        a < 0 ==> -b < rem_trunc(a, b) <= 0,
{
    if a < 0 {
        let x = -a;
        let q = x / b;
        let m = x % b;
        assert(x == b * q + m && 0 <= m < b) by (nonlinear_arith)
            requires
                b > 0,
                q == x / b,
                m == x % b,
        ;
        assert(b * (-q) == -(b * q)) by (nonlinear_arith);
        assert(rem_trunc(a, b) == -m);
    } else {
        assert(a == b * (a / b) + a % b && 0 <= a % b < b) by (nonlinear_arith)
            requires
                b > 0,
        ;
    }
}

fn div_rem_i64(a: i64, b: i64) -> (r: (i64, i64))
    requires
        b > 0,
    ensures
        r.0 == div_trunc(a as int, b as int),
        r.1 == rem_trunc(a as int, b as int),
{
    let q = a / b;
    proof {
        lemma_div_trunc(a as int, b as int);
        if a < 0 {
            assert(q == -((-(a as int)) / (b as int)));
        }
        assert(b * q == a - rem_trunc(a as int, b as int));
    }
    let m = a - b * q;
    (q, m)
}

/// The time of an export as the overview prints it.
pub fn format_timestamp(ts: Option<i64>) -> (r: String)
    ensures
        r@ == timestamp_text(ts),
{
    match ts {
        Some(secs) => {
            let (days, day) = div_rem_i64(secs, 86400);
            let (hours, hour_rest) = div_rem_i64(day, 3600);
            let (minutes, _) = div_rem_i64(hour_rest, 60);
            let mut r = String::new();
            r.append("第");
            push_i64(&mut r, days);
            r.append("天 ");
            push_pad2(&mut r, hours);
            r.append(":");
            push_pad2(&mut r, minutes);
            assert(r@ =~= timestamp_text(ts));
            r
        },
        None => "未知时间".to_owned(),
    }
}

// ---------------------------------------------------------------------
// Questions and summaries
// ---------------------------------------------------------------------

/// The title of an export, `未命名` when it has none.
pub open spec fn title_text(h: ChatHistory) -> Seq<char> {
    match h.data.biz_data.chat_session.title {
        Some(t) => t@,
        None => "未命名"@,
    }
}

/// The content of the first `REQUEST` fragment.
pub open spec fn first_request(frags: Seq<Fragment>) -> Option<Seq<char>>
    decreases frags.len(),
{
    if frags.len() == 0 {
        None
    } else if frags[0].frag_type@ == "REQUEST"@ {
        Some(frags[0].content@)
    } else {
        first_request(frags.drop_first())
    }
}

/// The question a message asks: the trimmed first `REQUEST` fragment of a
/// `USER` message.
pub open spec fn question_of(m: ChatMessage) -> Option<Seq<char>> {
    if m.role@ == "USER"@ {
        match first_request(m.fragments@) {
            Some(c) => Some(trim_seq(c)),
            None => None,
        }
    } else {
        None
    }
}

/// The questions of a conversation, in order.
pub open spec fn questions_of(msgs: Seq<ChatMessage>) -> Seq<Seq<char>>
    decreases msgs.len(),
{
    if msgs.len() == 0 {
        Seq::empty()
    } else {
        match question_of(msgs.last()) {
            Some(q) => questions_of(msgs.drop_last()).push(q),
            None => questions_of(msgs.drop_last()),
        }
    }
}

/// The total number of UTF-8 bytes of the texts.
pub open spec fn sum_byte_lens(qs: Seq<Seq<char>>) -> nat
    decreases qs.len(),
{
    if qs.len() == 0 {
        0
    } else {
        sum_byte_lens(qs.drop_last()) + byte_len(qs.last())
    }
}

/// `n`, or `usize::MAX` when `n` does not fit.
pub open spec fn saturate(n: nat) -> nat {
    if n <= usize::MAX {
        n
    } else {
        usize::MAX as nat
    }
}

/// The summary of an export: its title, time, number of questions, the
/// first three questions cut to 80 characters, and the questions' total size in
/// bytes; none when it asks no question.
pub open spec fn summary_of(h: ChatHistory) -> Option<SummaryView> {
    let qs = questions_of(h.data.biz_data.chat_messages@);
    if qs.len() == 0 {
        None
    } else {
        Some(
            SummaryView {
                title: title_text(h),
                updated_at: timestamp_text(h.data.biz_data.chat_session.updated_at),
                updated_secs: h.data.biz_data.chat_session.updated_at,
                question_count: qs.len(),
                sample_questions: qs.take(if qs.len() < 3 {
                    qs.len() as int
                } else {
                    3
                }).map_values(|q: Seq<char>| truncate_seq(q, 80)),
                total_chars: saturate(sum_byte_lens(qs)),
            },
        )
    }
}

fn first_request_index(frags: &Vec<Fragment>) -> (r: Option<usize>)
    ensures
        match r {
            Some(i) => i < frags.len() && first_request(frags@) == Some(frags@[i as int].content@),
            None => first_request(frags@) is None,
        },
{
    let mut i: usize = 0;
    assert(frags@.skip(0) =~= frags@);
    while i < frags.len()
        invariant
            i <= frags.len(),
            first_request(frags@) == first_request(frags@.skip(i as int)),
        decreases frags.len() - i,
    {
        if str_eq(frags[i].frag_type.as_str(), "REQUEST") {
            return Some(i);
        }
        assert(frags@.skip(i as int).drop_first() =~= frags@.skip(i + 1));
        i = i + 1;
    }
    None
}

/// The title of an export, `未命名` when it has none.
pub fn session_title(history: &ChatHistory) -> (r: String)
    ensures
        r@ == title_text(*history),
{
    match &history.data.biz_data.chat_session.title {
        Some(t) => t.clone(),
        None => "未命名".to_owned(),
    }
}

/// The questions of a conversation: the trimmed first `REQUEST` fragment
/// of each `USER` message that has one.
pub fn user_questions(msgs: &Vec<ChatMessage>) -> (r: Vec<String>)
    ensures
        string_views(r@) == questions_of(msgs@),
{
    let mut r: Vec<String> = Vec::new();
    let mut i: usize = 0;
    while i < msgs.len()
        invariant
            i <= msgs.len(),
            string_views(r@) == questions_of(msgs@.take(i as int)),
        decreases msgs.len() - i,
    {
        let m = &msgs[i];
        proof {
            assert(msgs@.take(i + 1).drop_last() =~= msgs@.take(i as int));
            assert(msgs@.take(i + 1).last() == msgs@[i as int]);
        }
        if str_eq(m.role.as_str(), "USER") {
            match first_request_index(&m.fragments) {
                Some(k) => {
                    let q = trim(m.fragments[k].content.as_str());
                    r.push(q);
                    assert(string_views(r@) =~= questions_of(msgs@.take(i + 1)));
                },
                None => {},
            }
        }
        i = i + 1;
    }
    assert(msgs@.take(msgs.len() as int) =~= msgs@);
    r
}

/// The summary of one export; none when it asks no question.
pub fn session_summary(history: &ChatHistory) -> (r: Option<SessionSummary>)
    ensures
        match r {
            Some(s) => summary_of(*history) == Some(s@),
            None => summary_of(*history) is None,
        },
{
    let questions = user_questions(&history.data.biz_data.chat_messages);
    let ghost qs = questions_of(history.data.biz_data.chat_messages@);
    if questions.len() == 0 {
        return None;
    }
    let mut total: usize = 0;
    let mut i: usize = 0;
    while i < questions.len()
        invariant
            i <= questions.len(),
            string_views(questions@) == qs,
            total == saturate(sum_byte_lens(qs.take(i as int))),
        decreases questions.len() - i,
    {
        proof {
            assert(qs.take(i + 1).drop_last() =~= qs.take(i as int));
        }
        total = total.saturating_add(questions[i].as_str().as_bytes().len());
        i = i + 1;
    }
    assert(qs.take(questions.len() as int) =~= qs);
    let take: usize = if questions.len() < 3 {
        questions.len()
    } else {
        3
    };
    let mut samples: Vec<String> = Vec::new();
    let mut k: usize = 0;
    while k < take
        invariant
            k <= take <= questions.len(),
            samples.len() == k,
            string_views(questions@) == qs,
            samples@.map_values(|q: String| q@) == qs.take(k as int).map_values(
                |q: Seq<char>| truncate_seq(q, 80),
            ),
        decreases take - k,
    {
        assert(qs[k as int] == questions@[k as int]@);
        let ghost before = samples@;
        let t = truncate(questions[k].as_str(), 80);
        samples.push(t);
        assert forall|j: int| 0 <= j < k implies #[trigger] samples@[j]@ == truncate_seq(qs[j], 80) by {
            assert(samples@[j] == before[j]);
            assert(before.map_values(|q: String| q@)[j] == before[j]@);
        }
        assert(samples@.map_values(|q: String| q@) =~= qs.take(k + 1).map_values(
            |q: Seq<char>| truncate_seq(q, 80),
        ));
        k = k + 1;
    }
    let summary = SessionSummary {
        title: session_title(history),
        updated_at: format_timestamp(history.data.biz_data.chat_session.updated_at),
        updated_secs: history.data.biz_data.chat_session.updated_at,
        question_count: questions.len(),
        sample_questions: samples,
        total_chars: total,
    };
    assert(summary@ =~= summary_of(*history).unwrap());
    Some(summary)
}

// ---------------------------------------------------------------------
// The most recent summaries
// ---------------------------------------------------------------------

/// The values of a sequence of summaries.
pub open spec fn summary_views(s: Seq<SessionSummary>) -> Seq<SummaryView> {
    s.map_values(|x: SessionSummary| x@)
}

/// Whether update time `a` comes strictly before update time `b`; an
/// unknown time comes before every known one.
pub open spec fn older(a: Option<i64>, b: Option<i64>) -> bool {
    match (a, b) {
        (None, Some(_)) => true,
        (Some(x), Some(y)) => x < y,
        _ => false,
    }
}

/// Whether update time `a` comes strictly before update time `b`.
pub fn is_older(a: Option<i64>, b: Option<i64>) -> (r: bool)
    ensures
        r == older(a, b),
{
    match (a, b) {
        (None, Some(_)) => true,
        (Some(x), Some(y)) => x < y,
        _ => false,
    }
}

/// Of two different update times one comes before the other.
pub proof fn lemma_older_total(a: Option<i64>, b: Option<i64>)
    ensures
        a == b || older(a, b) || older(b, a),
{
}

/// `older` never holds both ways.
pub proof fn lemma_older_asymmetric(a: Option<i64>, b: Option<i64>)
    ensures
        !(older(a, b) && older(b, a)),
{
}

/// `older` is transitive.
pub proof fn lemma_older_transitive(a: Option<i64>, b: Option<i64>, c: Option<i64>)
    requires
        older(a, b),
        older(b, c),
    ensures
        older(a, c),
{
}

/// Whether the summaries go from the most recently updated down: no
/// summary was updated after one before it.
pub open spec fn sorted_by_update_desc(s: Seq<SummaryView>) -> bool {
    forall|i: int, j: int|
        0 <= i < j < s.len() ==> !older(#[trigger] s[i].updated_secs, #[trigger] s[j].updated_secs)
}

/// Whether `r` is what is left of `all` after sorting it from the most
/// recently updated down and keeping the first `limit`: it is sorted, it
/// has `min(limit, |all|)` entries taken from `all`, and no summary that
/// was left out comes after one that was kept.
pub open spec fn is_recent_selection(r: Seq<SummaryView>, all: Seq<SummaryView>, limit: nat) -> bool {
    &&& r.len() == if limit < all.len() {
        limit
    } else {
        all.len()
    }
    &&& sorted_by_update_desc(r)
    &&& r.to_multiset().subset_of(all.to_multiset())
    &&& forall|y: SummaryView|
        all.to_multiset().count(y) > r.to_multiset().count(y) ==> forall|i: int|
            0 <= i < r.len() ==> !older(#[trigger] r[i].updated_secs, y.updated_secs)
}

/// The summaries of the exports that ask at least one question, in order.
pub open spec fn summaries_of(hs: Seq<ChatHistory>) -> Seq<SummaryView>
    decreases hs.len(),
{
    if hs.len() == 0 {
        Seq::empty()
    } else {
        match summary_of(hs.last()) {
            Some(s) => summaries_of(hs.drop_last()).push(s),
            None => summaries_of(hs.drop_last()),
        }
    }
}

/// Where a summary updated at `t` goes among summaries sorted from the most
/// recent down: before the first one updated before `t`, after all others.
pub open spec fn update_slot(sorted: Seq<SummaryView>, t: Option<i64>) -> int
    decreases sorted.len(),
{
    if sorted.len() == 0 {
        0
    } else if older(sorted[0].updated_secs, t) {
        0
    } else {
        1 + update_slot(sorted.drop_first(), t)
    }
}

/// The summaries sorted from the most recently updated down, comparing the
/// update times in seconds (an unknown time counts as the oldest);
/// summaries with the same time keep their order (a stable sort, built by
/// inserting each summary after those not older than it).
pub open spec fn sort_by_update(s: Seq<SummaryView>) -> Seq<SummaryView>
    decreases s.len(),
{
    if s.len() == 0 {
        Seq::empty()
    } else {
        let sorted = sort_by_update(s.drop_last());
        sorted.insert(update_slot(sorted, s.last().updated_secs), s.last())
    }
}

proof fn lemma_update_slot(sorted: Seq<SummaryView>, t: Option<i64>)
    ensures
        0 <= update_slot(sorted, t) <= sorted.len(),
        forall|i: int| 0 <= i < update_slot(sorted, t) ==> !older(#[trigger] sorted[i].updated_secs, t),
        update_slot(sorted, t) < sorted.len() ==> older(sorted[update_slot(sorted, t)].updated_secs, t),
    decreases sorted.len(),
{
    if sorted.len() > 0 && !older(sorted[0].updated_secs, t) {
        lemma_update_slot(sorted.drop_first(), t);
        assert forall|i: int| 0 <= i < update_slot(sorted, t) implies !older(
            #[trigger] sorted[i].updated_secs,
            t,
        ) by {
            if i > 0 {
                assert(sorted[i] == sorted.drop_first()[i - 1]);
            }
        }
    }
}

/// The sort orders from the most recent down and loses or adds nothing.
pub proof fn lemma_sort_by_update(s: Seq<SummaryView>)
    ensures
        sorted_by_update_desc(sort_by_update(s)),
        sort_by_update(s).to_multiset() == s.to_multiset(),
    decreases s.len(),
{
    broadcast use vstd::multiset::group_multiset_axioms;

    if s.len() == 0 {
        vstd::seq_lib::lemma_multiset_commutative(s, s);
        assert(s + s =~= s);
        assert(sort_by_update(s) =~= s);
    } else {
        let prev = sort_by_update(s.drop_last());
        let x = s.last();
        let p = update_slot(prev, x.updated_secs);
        lemma_sort_by_update(s.drop_last());
        lemma_update_slot(prev, x.updated_secs);
        let rv = prev.insert(p, x);
        assert(rv == sort_by_update(s));
        vstd::seq_lib::to_multiset_insert(prev, p, x);
        vstd::seq_lib::to_multiset_build(s.drop_last(), x);
        assert(s.drop_last().push(x) =~= s);
        assert forall|i: int, j: int| 0 <= i < j < rv.len() implies !older(
            #[trigger] rv[i].updated_secs,
            #[trigger] rv[j].updated_secs,
        ) by {
            if i < p && j == p {
                lemma_older_asymmetric(x.updated_secs, prev[i].updated_secs);
            } else if i == p && j > p {
                let y = prev[j - 1].updated_secs;
                let z = prev[p].updated_secs;
                if j - 1 > p {
                    assert(!older(z, y));
                }
                lemma_older_total(z, y);
                lemma_older_asymmetric(z, x.updated_secs);
                if older(x.updated_secs, y) {
                    if older(y, z) {
                        lemma_older_transitive(x.updated_secs, y, z);
                    }
                }
            } else if i < p && j > p {
                assert(rv[i] == prev[i]);
                assert(rv[j] == prev[j - 1]);
            } else if i > p {
                assert(rv[i] == prev[i - 1]);
                assert(rv[j] == prev[j - 1]);
            } else {
                assert(rv[i] == prev[i]);
                assert(rv[j] == prev[j]);
            }
        }
    }
}

/// The summaries sorted from the most recently updated down; summaries
/// with the same time keep their order.
pub fn sort_by_update_desc(v: Vec<SessionSummary>) -> (r: Vec<SessionSummary>)
    ensures
        summary_views(r@) == sort_by_update(summary_views(v@)),
{
    let ghost orig = summary_views(v@);
    let mut rest = v;
    let mut r: Vec<SessionSummary> = Vec::new();
    let ghost mut taken: int = 0;
    assert(summary_views(r@) =~= sort_by_update(orig.take(0)));
    while rest.len() > 0
        invariant
            0 <= taken <= orig.len(),
            rest.len() == orig.len() - taken,
            summary_views(rest@) == orig.skip(taken),
            summary_views(r@) == sort_by_update(orig.take(taken)),
        decreases rest.len(),
    {
        let ghost before_r = summary_views(r@);
        let ghost before_rest = rest@;
        let x = rest.remove(0);
        proof {
            assert(summary_views(before_rest)[0] == orig.skip(taken)[0]);
            assert(x@ == orig[taken]);
            assert(rest@ =~= before_rest.drop_first());
            assert(summary_views(rest@) =~= summary_views(before_rest).drop_first());
            assert(orig.skip(taken).drop_first() =~= orig.skip(taken + 1));
            assert(orig.take(taken + 1).drop_last() =~= orig.take(taken));
            lemma_update_slot(before_r, x@.updated_secs);
        }
        let mut p: usize = 0;
        assert(before_r.skip(0) =~= before_r);
        while p < r.len() && !is_older(r[p].updated_secs, x.updated_secs)
            invariant
                p <= r.len(),
                before_r == summary_views(r@),
                update_slot(before_r, x@.updated_secs) == p + update_slot(
                    before_r.skip(p as int),
                    x@.updated_secs,
                ),
            decreases r.len() - p,
        {
            assert(before_r.skip(p as int).drop_first() =~= before_r.skip(p + 1));
            assert(before_r.skip(p as int)[0] == before_r[p as int]);
            p = p + 1;
        }
        proof {
            if p < r.len() {
                assert(before_r.skip(p as int)[0] == before_r[p as int]);
            }
        }
        let ghost xv = x@;
        r.insert(p, x);
        proof {
            assert(summary_views(r@) =~= before_r.insert(p as int, xv));
            taken = taken + 1;
        }
    }
    assert(orig.take(taken) =~= orig);
    r
}

/// A sorted arrangement of `all`, cut after `limit` entries, is a
/// selection of the most recent summaries.
proof fn lemma_sorted_prefix_is_selection(s: Seq<SummaryView>, all: Seq<SummaryView>, limit: nat)
    requires
        s.to_multiset() == all.to_multiset(),
        sorted_by_update_desc(s),
    ensures
        is_recent_selection(
            s.take(
                if limit < s.len() {
                    limit as int
                } else {
                    s.len() as int
                },
            ),
            all,
            limit,
        ),
{
    broadcast use vstd::multiset::group_multiset_axioms;

    let k: int = if limit < s.len() {
        limit as int
    } else {
        s.len() as int
    };
    let t = s.take(k);
    let d = s.skip(k);
    vstd::seq_lib::lemma_multiset_commutative(t, d);
    assert(t + d =~= s);
    s.to_multiset_ensures();
    all.to_multiset_ensures();
    d.to_multiset_ensures();
    assert(all.len() == s.len());
    assert forall|y: SummaryView|
        all.to_multiset().count(y) > t.to_multiset().count(y) implies forall|i: int|
        0 <= i < t.len() ==> !older(#[trigger] t[i].updated_secs, y.updated_secs) by {
        assert(d.to_multiset().count(y) > 0);
        assert(d.contains(y));
        let j = choose|j: int| 0 <= j < d.len() && d[j] == y;
        assert(s[k + j] == y);
        assert forall|i: int| 0 <= i < t.len() implies !older(
            #[trigger] t[i].updated_secs,
            y.updated_secs,
        ) by {
            assert(t[i] == s[i]);
            assert(!older(s[i].updated_secs, s[k + j].updated_secs));
        }
    }
    assert forall|i: int, j: int| 0 <= i < j < t.len() implies !older(
        #[trigger] t[i].updated_secs,
        #[trigger] t[j].updated_secs,
    ) by {
        assert(t[i] == s[i] && t[j] == s[j]);
    }
}

/// The summaries of the exports that ask at least one question, in order.
pub fn summarize_all(histories: &Vec<ChatHistory>) -> (r: Vec<SessionSummary>)
    ensures
        summary_views(r@) == summaries_of(histories@),
{
    let mut r: Vec<SessionSummary> = Vec::new();
    let mut i: usize = 0;
    while i < histories.len()
        invariant
            i <= histories.len(),
            summary_views(r@) == summaries_of(histories@.take(i as int)),
        decreases histories.len() - i,
    {
        proof {
            assert(histories@.take(i + 1).drop_last() =~= histories@.take(i as int));
            assert(histories@.take(i + 1).last() == histories@[i as int]);
        }
        match session_summary(&histories[i]) {
            Some(s) => {
                r.push(s);
                assert(summary_views(r@) =~= summaries_of(histories@.take(i + 1)));
            },
            None => {},
        }
        i = i + 1;
    }
    assert(histories@.take(histories.len() as int) =~= histories@);
    r
}

/// The `limit` most recently updated summaries of the exports, most recent
/// first (the overview of `zhihu_parse` and `zhihu_daily`).
pub fn recent_summaries(histories: &Vec<ChatHistory>, limit: usize) -> (r: Vec<SessionSummary>)
    ensures
        summary_views(r@) == sort_by_update(summaries_of(histories@)).take(
            if (limit as nat) < summaries_of(histories@).len() {
                limit as int
            } else {
                summaries_of(histories@).len() as int
            },
        ),
{
    let all = summarize_all(histories);
    let mut sorted = sort_by_update_desc(all);
    let ghost s = summary_views(sorted@);
    proof {
        lemma_sort_by_update(summaries_of(histories@));
        s.to_multiset_ensures();
        summaries_of(histories@).to_multiset_ensures();
    }
    if sorted.len() > limit {
        sorted.truncate(limit);
    }
    assert(summary_views(sorted@) =~= s.take(
        if (limit as nat) < s.len() {
            limit as int
        } else {
            s.len() as int
        },
    ));
    sorted
}

/// The most recent summaries are a selection of the most recent ones:
/// sorted, no more than `limit`, taken from the exports, and none left out
/// is more recent than one kept.
pub proof fn lemma_recent_summaries_select(all: Seq<SummaryView>, limit: nat)
    ensures
        is_recent_selection(
            sort_by_update(all).take(
                if limit < all.len() {
                    limit as int
                } else {
                    all.len() as int
                },
            ),
            all,
            limit,
        ),
{
    lemma_sort_by_update(all);
    sort_by_update(all).to_multiset_ensures();
    all.to_multiset_ensures();
    lemma_sorted_prefix_is_selection(sort_by_update(all), all, limit);
}

// ---------------------------------------------------------------------
// Session detail
// ---------------------------------------------------------------------

/// The roles whose messages make up a conversation's turns.
pub open spec fn is_turn_role(role: Seq<char>) -> bool {
    role == "USER"@ || role == "ASSISTANT"@
}

/// The contents of the `REQUEST` and `TEXT` fragments, in order.
pub open spec fn text_parts(frags: Seq<Fragment>) -> Seq<Seq<char>>
    decreases frags.len(),
{
    if frags.len() == 0 {
        Seq::empty()
    } else {
        let f = frags.last();
        if f.frag_type@ == "REQUEST"@ || f.frag_type@ == "TEXT"@ {
            text_parts(frags.drop_last()).push(f.content@)
        } else {
            text_parts(frags.drop_last())
        }
    }
}

/// The turn a message makes: a `USER` or `ASSISTANT` message whose text
/// parts, joined by newlines, are not blank; the text cut to 500 characters.
pub open spec fn turn_of(m: ChatMessage) -> Option<TurnView> {
    if is_turn_role(m.role@) {
        let c = join_seq(text_parts(m.fragments@), "\n"@);
        if trim_seq(c).len() == 0 {
            None
        } else {
            Some(TurnView { role: m.role@, content: truncate_seq(c, 500) })
        }
    } else {
        None
    }
}

/// The turns of a conversation, in order.
pub open spec fn turns_of(msgs: Seq<ChatMessage>) -> Seq<TurnView>
    decreases msgs.len(),
{
    if msgs.len() == 0 {
        Seq::empty()
    } else {
        match turn_of(msgs.last()) {
            Some(t) => turns_of(msgs.drop_last()).push(t),
            None => turns_of(msgs.drop_last()),
        }
    }
}

/// The detail of an export: title, time and turns.
pub open spec fn detail_of(h: ChatHistory) -> DetailView {
    DetailView {
        title: title_text(h),
        updated_at: timestamp_text(h.data.biz_data.chat_session.updated_at),
        turns: turns_of(h.data.biz_data.chat_messages@),
    }
}

/// The detail of the first export whose title contains `keyword`, looking
/// at the exports in order and passing over those that could not be read
/// (`None`); none when no readable export matches.
pub open spec fn find_detail(hs: Seq<Option<ChatHistory>>, keyword: Seq<char>) -> Option<DetailView>
    decreases hs.len(),
{
    if hs.len() == 0 {
        None
    } else {
        match hs[0] {
            None => find_detail(hs.drop_first(), keyword),
            Some(h) => if seq_contains(title_text(h), keyword) {
                Some(detail_of(h))
            } else {
                find_detail(hs.drop_first(), keyword)
            },
        }
    }
}

/// The text of a message: its `REQUEST` and `TEXT` fragments joined by
/// newlines.
pub fn message_text(frags: &Vec<Fragment>) -> (r: String)
    ensures
        r@ == join_seq(text_parts(frags@), "\n"@),
{
    let mut parts: Vec<String> = Vec::new();
    let mut i: usize = 0;
    while i < frags.len()
        invariant
            i <= frags.len(),
            string_views(parts@) == text_parts(frags@.take(i as int)),
        decreases frags.len() - i,
    {
        proof {
            assert(frags@.take(i + 1).drop_last() =~= frags@.take(i as int));
            assert(frags@.take(i + 1).last() == frags@[i as int]);
        }
        let f = &frags[i];
        if str_eq(f.frag_type.as_str(), "REQUEST") || str_eq(f.frag_type.as_str(), "TEXT") {
            parts.push(f.content.clone());
            assert(string_views(parts@) =~= text_parts(frags@.take(i + 1)));
        }
        i = i + 1;
    }
    assert(frags@.take(frags.len() as int) =~= frags@);
    join_lines(&parts)
}

/// The turns of a conversation: each `USER` or `ASSISTANT` message with
/// non-blank text, the text cut to 500 characters.
pub fn session_turns(msgs: &Vec<ChatMessage>) -> (r: Vec<ConversationTurn>)
    ensures
        r@.map_values(|t: ConversationTurn| t@) == turns_of(msgs@),
{
    let mut r: Vec<ConversationTurn> = Vec::new();
    let mut i: usize = 0;
    while i < msgs.len()
        invariant
            i <= msgs.len(),
            r@.map_values(|t: ConversationTurn| t@) == turns_of(msgs@.take(i as int)),
        decreases msgs.len() - i,
    {
        proof {
            assert(msgs@.take(i + 1).drop_last() =~= msgs@.take(i as int));
            assert(msgs@.take(i + 1).last() == msgs@[i as int]);
        }
        let m = &msgs[i];
        if str_eq(m.role.as_str(), "USER") || str_eq(m.role.as_str(), "ASSISTANT") {
            let content = message_text(&m.fragments);
            if !is_blank(content.as_str()) {
                let turn = ConversationTurn {
                    role: m.role.clone(),
                    content: truncate(content.as_str(), 500),
                };
                r.push(turn);
                assert(r@.map_values(|t: ConversationTurn| t@) =~= turns_of(msgs@.take(i + 1)));
            }
        }
        i = i + 1;
    }
    assert(msgs@.take(msgs.len() as int) =~= msgs@);
    r
}

/// The detail of one export.
pub fn session_detail(history: &ChatHistory) -> (r: SessionDetail)
    ensures
        r@ == detail_of(*history),
{
    SessionDetail {
        title: session_title(history),
        updated_at: format_timestamp(history.data.biz_data.chat_session.updated_at),
        turns: session_turns(&history.data.biz_data.chat_messages),
    }
}

/// The detail of the first export, in the given order, whose title
/// contains `keyword`, passing over the exports that could not be read
/// (`None`); `None` when no readable export matches.
pub fn find_session_detail(histories: &Vec<Option<ChatHistory>>, keyword: &str) -> (r: Option<
    SessionDetail,
>)
    ensures
        match r {
            Some(d) => find_detail(histories@, keyword@) == Some(d@),
            None => find_detail(histories@, keyword@) is None,
        },
{
    let mut i: usize = 0;
    assert(histories@.skip(0) =~= histories@);
    while i < histories.len()
        invariant
            i <= histories.len(),
            find_detail(histories@, keyword@) == find_detail(histories@.skip(i as int), keyword@),
        decreases histories.len() - i,
    {
        match &histories[i] {
            None => {},
            Some(h) => {
                let title = session_title(h);
                if contains(title.as_str(), keyword) {
                    return Some(session_detail(h));
                }
            },
        }
        assert(histories@.skip(i as int).drop_first() =~= histories@.skip(i + 1));
        i = i + 1;
    }
    None
}

// ---------------------------------------------------------------------
// Laws
// ---------------------------------------------------------------------

/// A session found by keyword is one of the exports, and its title
/// contains the keyword.
pub proof fn lemma_found_session_matches(hs: Seq<Option<ChatHistory>>, keyword: Seq<char>)
    requires
        find_detail(hs, keyword) is Some,
    ensures
        seq_contains(find_detail(hs, keyword).unwrap().title, keyword),
        exists|i: int|
            0 <= i < hs.len() && (#[trigger] hs[i]) is Some && find_detail(hs, keyword).unwrap()
                == detail_of(hs[i].unwrap()),
    decreases hs.len(),
{
    match hs[0] {
        Some(h) if seq_contains(title_text(h), keyword) => {
            assert(hs[0] is Some);
        },
        _ => {
            lemma_found_session_matches(hs.drop_first(), keyword);
            let i = choose|i: int|
                0 <= i < hs.drop_first().len() && (#[trigger] hs.drop_first()[i]) is Some
                    && find_detail(hs.drop_first(), keyword).unwrap() == detail_of(
                    hs.drop_first()[i].unwrap(),
                );
            assert(hs[i + 1] == hs.drop_first()[i]);
        },
    }
}

/// The search finds a session exactly when some readable export's title
/// contains the keyword anywhere in it, and then it finds the first such
/// export in the given order.
pub proof fn lemma_find_detail_is_first_containing(hs: Seq<Option<ChatHistory>>, keyword: Seq<char>)
    ensures
        find_detail(hs, keyword) is Some <==> exists|i: int|
            0 <= i < hs.len() && (#[trigger] hs[i]) is Some && seq_contains(
                title_text(hs[i].unwrap()),
                keyword,
            ),
        forall|i: int|
            0 <= i < hs.len() && (#[trigger] hs[i]) is Some && seq_contains(
                title_text(hs[i].unwrap()),
                keyword,
            ) && (forall|j: int|
                0 <= j < i && (#[trigger] hs[j]) is Some ==> !seq_contains(
                    title_text(hs[j].unwrap()),
                    keyword,
                )) ==> find_detail(hs, keyword) == Some(detail_of(hs[i].unwrap())),
    decreases hs.len(),
{
    if hs.len() > 0 {
        let rest = hs.drop_first();
        lemma_find_detail_is_first_containing(rest, keyword);
        assert forall|i: int| 0 < i < hs.len() implies #[trigger] hs[i] == rest[i - 1] by {}
        let first_hit = hs[0] is Some && seq_contains(title_text(hs[0].unwrap()), keyword);
        if first_hit {
            assert(hs[0] is Some);
        } else {
            if exists|i: int|
                0 <= i < hs.len() && (#[trigger] hs[i]) is Some && seq_contains(
                    title_text(hs[i].unwrap()),
                    keyword,
                ) {
                let i = choose|i: int|
                    0 <= i < hs.len() && (#[trigger] hs[i]) is Some && seq_contains(
                        title_text(hs[i].unwrap()),
                        keyword,
                    );
                assert(rest[i - 1] == hs[i]);
            }
            if exists|i: int|
                0 <= i < rest.len() && (#[trigger] rest[i]) is Some && seq_contains(
                    title_text(rest[i].unwrap()),
                    keyword,
                ) {
                let i = choose|i: int|
                    0 <= i < rest.len() && (#[trigger] rest[i]) is Some && seq_contains(
                        title_text(rest[i].unwrap()),
                        keyword,
                    );
                assert(hs[i + 1] == rest[i]);
            }
            assert forall|i: int|
                0 <= i < hs.len() && (#[trigger] hs[i]) is Some && seq_contains(
                    title_text(hs[i].unwrap()),
                    keyword,
                ) && (forall|j: int|
                    0 <= j < i && (#[trigger] hs[j]) is Some ==> !seq_contains(
                        title_text(hs[j].unwrap()),
                        keyword,
                    )) implies find_detail(hs, keyword) == Some(detail_of(hs[i].unwrap())) by {
                assert(i > 0);
                assert(rest[i - 1] == hs[i]);
                assert forall|j: int|
                    0 <= j < i - 1 && (#[trigger] rest[j]) is Some implies !seq_contains(
                        title_text(rest[j].unwrap()),
                        keyword,
                    ) by {
                    assert(hs[j + 1] == rest[j]);
                }
            }
        }
    }
}

/// The empty keyword finds the first export, when it could be read.
pub proof fn lemma_empty_keyword_finds_first(hs: Seq<Option<ChatHistory>>)
    requires
        hs.len() > 0,
        hs[0] is Some,
    ensures
        find_detail(hs, Seq::empty()) == Some(detail_of(hs[0].unwrap())),
{
    let t = title_text(hs[0].unwrap());
    assert(t.subrange(0, 0) =~= Seq::<char>::empty());
    assert(occurs_at(t, Seq::empty(), 0));
}

/// A listed session asks at least one question, and shows its first
/// questions, three at most.
pub proof fn lemma_summary_shape(h: ChatHistory)
    requires
        summary_of(h) is Some,
    ensures
        summary_of(h).unwrap().question_count >= 1,
        summary_of(h).unwrap().sample_questions.len() == if summary_of(h).unwrap().question_count
            < 3 {
            summary_of(h).unwrap().question_count
        } else {
            3
        },
{
}

/// Every turn of a detail is said by the user or the assistant, and its
/// text is not blank before it is cut.
pub proof fn lemma_turns_are_dialogue(msgs: Seq<ChatMessage>)
    ensures
        forall|i: int|
            0 <= i < turns_of(msgs).len() ==> is_turn_role(#[trigger] turns_of(msgs)[i].role),
    decreases msgs.len(),
{
    if msgs.len() > 0 {
        let prev = turns_of(msgs.drop_last());
        lemma_turns_are_dialogue(msgs.drop_last());
        assert forall|i: int| 0 <= i < turns_of(msgs).len() implies is_turn_role(
            #[trigger] turns_of(msgs)[i].role,
        ) by {
            if i < prev.len() {
                assert(turns_of(msgs)[i] == prev[i]);
            }
        }
    }
}

/// For a time after the epoch, the hour is below 24 and the minute below
/// 60, so both print as two digits.
pub proof fn lemma_timestamp_fields(secs: i64)
    requires
        secs >= 0,
    ensures
        0 <= div_trunc(rem_trunc(secs as int, 86400), 3600) < 24,
        0 <= div_trunc(rem_trunc(rem_trunc(secs as int, 86400), 3600), 60) < 60,
{
    lemma_div_trunc(secs as int, 86400);
    let d = rem_trunc(secs as int, 86400);
    lemma_div_trunc(d, 3600);
    lemma_div_trunc(rem_trunc(d, 3600), 60);
}

/// When the limit is at least the number of sessions, the selection keeps
/// every summary.
pub proof fn lemma_selection_keeps_all(r: Seq<SummaryView>, all: Seq<SummaryView>, limit: nat)
    requires
        is_recent_selection(r, all, limit),
        all.len() <= limit,
    ensures
        r.to_multiset() == all.to_multiset(),
{
    broadcast use vstd::multiset::group_multiset_axioms;

    r.to_multiset_ensures();
    all.to_multiset_ensures();
    let d = all.to_multiset().sub(r.to_multiset());
    assert(d.len() == 0);
    vstd::multiset::lemma_multiset_empty_len(d);
    assert forall|v: SummaryView| #[trigger] r.to_multiset().count(v) == all.to_multiset().count(v) by {
        assert(d.count(v) == 0);
    }
    assert(r.to_multiset() =~= all.to_multiset());
}

} // verus!
