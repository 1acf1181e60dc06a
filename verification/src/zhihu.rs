//! The Zhihu side: the endpoints the tool knows, and the recommended
//! questions read out of the creator API's JSON answer.
use vstd::prelude::*;
use crate::text::str_eq;

verus! {

// ---------------------------------------------------------------------
// Endpoints
// ---------------------------------------------------------------------

/// The named Zhihu endpoints; no name occurs twice.
pub struct UrlTable {
    entries: Vec<(&'static str, &'static str)>,
}

/// Whether no name occurs twice.
pub open spec fn names_distinct(entries: Seq<(Seq<char>, Seq<char>)>) -> bool {
    forall|i: int, j: int|
        0 <= i < j < entries.len() ==> (#[trigger] entries[i]).0 != (#[trigger] entries[j]).0
}

/// The URL stored under `name`.
pub open spec fn url_lookup(entries: Seq<(Seq<char>, Seq<char>)>, name: Seq<char>) -> Option<
    Seq<char>,
>
    decreases entries.len(),
{
    if entries.len() == 0 {
        None
    } else if entries[0].0 == name {
        Some(entries[0].1)
    } else {
        url_lookup(entries.drop_first(), name)
    }
}

impl View for UrlTable {
    type V = Seq<(Seq<char>, Seq<char>)>;

    closed spec fn view(&self) -> Seq<(Seq<char>, Seq<char>)> {
        self.entries@.map_values(|e: (&'static str, &'static str)| (e.0@, e.1@))
    }
}

/// The endpoints: the home page, an article's voters, the recommended
/// questions, the invited questions and the editor.
pub open spec fn zhihu_urls() -> Seq<(Seq<char>, Seq<char>)> {
    seq![
        ("home"@, "https://www.zhihu.com/"@),
        ("voter"@, "https://www.zhihu.com/api/v4/articles/2085374500649096302/voters"@),
        ("question"@, "https://www.zhihu.com/api/v4/creators/question_route/author_related/recommend?limit=200&offset=0&page_source=web_author_recommend&recom_domain_score_ab=1"@),
        ("answer"@, "https://www.zhihu.com/creator/featured-question/invited"@),
        ("write"@, "https://zhuanlan.zhihu.com/write"@),
    ]
}

/// The endpoints the tool knows, by name.
pub fn init_urls() -> (r: UrlTable)
    ensures
        r@ == zhihu_urls(),
        names_distinct(r@),
{
    let mut entries: Vec<(&'static str, &'static str)> = Vec::new();
    entries.push(("home", "https://www.zhihu.com/"));
    entries.push(("voter", "https://www.zhihu.com/api/v4/articles/2085374500649096302/voters"));
    entries.push(
        (
            "question",
            "https://www.zhihu.com/api/v4/creators/question_route/author_related/recommend?limit=200&offset=0&page_source=web_author_recommend&recom_domain_score_ab=1",
        ),
    );
    entries.push(("answer", "https://www.zhihu.com/creator/featured-question/invited"));
    entries.push(("write", "https://zhuanlan.zhihu.com/write"));
    let r = UrlTable { entries };
    proof {
        reveal_strlit("home");
        reveal_strlit("voter");
        reveal_strlit("question");
        reveal_strlit("answer");
        reveal_strlit("write");
        assert(r@ =~= zhihu_urls());
        assert("voter"@[0] != "write"@[0]);
        let u = zhihu_urls();
        assert(u[0].0.len() == 4 && u[1].0.len() == 5 && u[2].0.len() == 8 && u[3].0.len() == 6
            && u[4].0.len() == 5);
        assert(u[1].0 != u[4].0);
    }
    r
}

impl UrlTable {
    /// The URL stored under `name`, if any.
    pub fn get(&self, name: &str) -> (r: Option<&'static str>)
        ensures
            match r {
                Some(u) => url_lookup(self@, name@) == Some(u@),
                None => url_lookup(self@, name@) is None,
            },
    {
        let mut i: usize = 0;
        assert(self@.skip(0) =~= self@);
        while i < self.entries.len()
            invariant
                i <= self.entries.len(),
                self@.len() == self.entries.len(),
                url_lookup(self@, name@) == url_lookup(self@.skip(i as int), name@),
            decreases self.entries.len() - i,
        {
            let (n, u) = self.entries[i];
            assert(self@.skip(i as int)[0] == (n@, u@));
            if str_eq(n, name) {
                return Some(u);
            }
            assert(self@.skip(i as int).drop_first() =~= self@.skip(i + 1));
            i = i + 1;
        }
        None
    }
}

// ---------------------------------------------------------------------
// JSON answers
// ---------------------------------------------------------------------

/// A JSON value as the library reads it; numbers keep their text.
#[derive(Debug)]
pub enum JsonValue {
    Null,
    Bool(bool),
    Number(String),
    Str(String),
    Array(Vec<JsonValue>),
    Object(Vec<(String, JsonValue)>),
}

/// The JSON value that `serde_json` reads from `text`; none when `text` is
/// not JSON.
pub uninterp spec fn parsed_json(text: Seq<char>) -> Option<JsonValue>;

#[verifier::external_type_specification]
#[verifier::external_body]
pub struct ExJsonValue(serde_json::Value);

/// The value in the library's own form. Each variant of `serde_json::Value`
/// becomes the variant of the same name, an object's members in the order
/// in which the map yields them.
#[verifier::external_body]
fn json_value_from(v: &serde_json::Value) -> JsonValue {
    match v {
        serde_json::Value::Null => JsonValue::Null,
        serde_json::Value::Bool(b) => JsonValue::Bool(*b),
        serde_json::Value::Number(n) => JsonValue::Number(n.to_string()),
        serde_json::Value::String(s) => JsonValue::Str(s.clone()),
        serde_json::Value::Array(a) => JsonValue::Array(a.iter().map(json_value_from).collect()),
        serde_json::Value::Object(m) => JsonValue::Object(
            m.iter().map(|(k, x)| (k.clone(), json_value_from(x))).collect(),
        ),
    }
}

/// `serde_json::from_str` into a `serde_json::Value`: what it reads, or
/// none when the text is not JSON. Nothing is stated of what the parser
/// makes of a given text beyond giving that result a name.
#[verifier::external_body]
fn parse_json(text: &str) -> (r: Option<JsonValue>)
    ensures
        r == parsed_json(text@),
{
    serde_json::from_str::<serde_json::Value>(text).ok().map(|v| json_value_from(&v))
}

/// The member `key` of an object (the first one, should it occur twice);
/// none for a missing member or a value that is not an object.
pub open spec fn json_member(v: JsonValue, key: Seq<char>) -> Option<JsonValue> {
    match v {
        JsonValue::Object(members) => member_lookup(members@, key),
        _ => None,
    }
}

/// The value stored under `key` in a list of members.
pub open spec fn member_lookup(members: Seq<(String, JsonValue)>, key: Seq<char>) -> Option<JsonValue>
    decreases members.len(),
{
    if members.len() == 0 {
        None
    } else if members[0].0@ == key {
        Some(members[0].1)
    } else {
        member_lookup(members.drop_first(), key)
    }
}

/// The text of `v[key]` when it is a JSON string.
pub open spec fn member_str(v: Option<JsonValue>, key: Seq<char>) -> Option<Seq<char>> {
    match v {
        Some(x) => match json_member(x, key) {
            Some(JsonValue::Str(s)) => Some(s@),
            _ => None,
        },
        None => None,
    }
}

/// The `[id, title]` of an item whose `question.id` and `question.title`
/// are both strings.
pub open spec fn question_of_item(item: JsonValue) -> Option<(Seq<char>, Seq<char>)> {
    let q = json_member(item, "question"@);
    match (member_str(q, "id"@), member_str(q, "title"@)) {
        (Some(id), Some(title)) => Some((id, title)),
        _ => None,
    }
}

/// The questions of the items that have them, in order.
pub open spec fn questions_of_items(items: Seq<JsonValue>) -> Seq<(Seq<char>, Seq<char>)>
    decreases items.len(),
{
    if items.len() == 0 {
        Seq::empty()
    } else {
        match question_of_item(items.last()) {
            Some(q) => questions_of_items(items.drop_last()).push(q),
            None => questions_of_items(items.drop_last()),
        }
    }
}

/// The recommended questions of an API answer: those of the items of its
/// `data` array; none when `data` is not an array.
pub open spec fn recommended_questions(v: JsonValue) -> Seq<(Seq<char>, Seq<char>)> {
    match json_member(v, "data"@) {
        Some(JsonValue::Array(items)) => questions_of_items(items@),
        _ => Seq::empty(),
    }
}

/// The questions of two runs of items, one after the other, are those of
/// the first run followed by those of the second: no item is lost, however
/// many come before it.
pub proof fn lemma_questions_of_items_concat(a: Seq<JsonValue>, b: Seq<JsonValue>)
    ensures
        questions_of_items(a + b) == questions_of_items(a) + questions_of_items(b),
    decreases b.len(),
{
    if b.len() == 0 {
        assert(a + b =~= a);
        assert(questions_of_items(a) + questions_of_items(b) =~= questions_of_items(a));
    } else {
        lemma_questions_of_items_concat(a, b.drop_last());
        assert((a + b).drop_last() =~= a + b.drop_last());
        assert((a + b).last() == b.last());
        match question_of_item(b.last()) {
            Some(q) => {
                assert(questions_of_items(a) + questions_of_items(b) =~= (questions_of_items(a)
                    + questions_of_items(b.drop_last())).push(q));
            },
            None => {},
        }
    }
}

/// One item gives its `[id, title]` when both are strings, else nothing.
pub proof fn lemma_questions_of_one_item(item: JsonValue)
    ensures
        questions_of_items(seq![item]) == match question_of_item(item) {
            Some(q) => seq![q],
            None => Seq::empty(),
        },
{
    let one = seq![item];
    assert(one.drop_last() =~= Seq::<JsonValue>::empty());
    assert(one.last() == item);
    assert(questions_of_items(one.drop_last()) == Seq::<(Seq<char>, Seq<char>)>::empty());
    match question_of_item(item) {
        Some(q) => {
            assert(Seq::<(Seq<char>, Seq<char>)>::empty().push(q) =~= seq![q]);
        },
        None => {},
    }
}

/// Every item of `data` whose `question.id` and `question.title` are
/// strings gives its pair, in its place among the others: the answer's
/// questions are those of the items before it, its pair, then those of the
/// items after it. There is no bound on how many are kept: when every item
/// has both strings, there are as many questions as items.
pub proof fn lemma_recommended_keeps_every_item(v: JsonValue, items: Vec<JsonValue>, k: int)
    requires
        json_member(v, "data"@) == Some(JsonValue::Array(items)),
        0 <= k < items.len(),
        question_of_item(items@[k]) is Some,
    ensures
        recommended_questions(v) == questions_of_items(items@.take(k)) + seq![
            question_of_item(items@[k]).unwrap(),
        ] + questions_of_items(items@.skip(k + 1)),
        recommended_questions(v).len() <= items.len(),
        (forall|j: int| 0 <= j < items.len() ==> (#[trigger] question_of_item(items@[j])) is Some)
            ==> recommended_questions(v).len() == items.len(),
{
    let s = items@;
    assert(s =~= s.take(k) + seq![s[k]] + s.skip(k + 1));
    lemma_questions_of_items_concat(s.take(k) + seq![s[k]], s.skip(k + 1));
    lemma_questions_of_items_concat(s.take(k), seq![s[k]]);
    lemma_questions_of_one_item(s[k]);
    lemma_questions_of_items_len(s);
}

/// There are never more questions than items, and as many when every item
/// has both strings.
pub proof fn lemma_questions_of_items_len(items: Seq<JsonValue>)
    ensures
        questions_of_items(items).len() <= items.len(),
        (forall|j: int| 0 <= j < items.len() ==> (#[trigger] question_of_item(items[j])) is Some)
            ==> questions_of_items(items).len() == items.len(),
    decreases items.len(),
{
    if items.len() > 0 {
        lemma_questions_of_items_len(items.drop_last());
        if forall|j: int| 0 <= j < items.len() ==> (#[trigger] question_of_item(items[j])) is Some {
            assert forall|j: int| 0 <= j < items.drop_last().len() implies (#[trigger] question_of_item(
                items.drop_last()[j],
            )) is Some by {
                assert(items.drop_last()[j] == items[j]);
            }
            assert(question_of_item(items[items.len() - 1]) is Some);
        }
    }
}

/// An answer whose `data` is not an array has no questions.
pub proof fn lemma_recommended_without_data_array(v: JsonValue)
    requires
        !(json_member(v, "data"@) matches Some(JsonValue::Array(_))),
    ensures
        recommended_questions(v) == Seq::<(Seq<char>, Seq<char>)>::empty(),
{
}

/// The `(id, title)` values of the question pairs.
pub open spec fn question_pairs(qs: Seq<[String; 2]>) -> Seq<(Seq<char>, Seq<char>)> {
    qs.map_values(|q: [String; 2]| (q@[0]@, q@[1]@))
}

/// The member `key` of an object.
pub fn json_get<'a>(v: &'a JsonValue, key: &str) -> (r: Option<&'a JsonValue>)
    ensures
        match r {
            Some(x) => json_member(*v, key@) == Some(*x),
            None => json_member(*v, key@) is None,
        },
{
    match v {
        JsonValue::Object(members) => {
            let mut i: usize = 0;
            assert(members@.skip(0) =~= members@);
            while i < members.len()
                invariant
                    i <= members.len(),
                    json_member(*v, key@) == member_lookup(members@.skip(i as int), key@),
                decreases members.len() - i,
            {
                assert(members@.skip(i as int)[0] == members@[i as int]);
                if str_eq(members[i].0.as_str(), key) {
                    return Some(&members[i].1);
                }
                assert(members@.skip(i as int).drop_first() =~= members@.skip(i + 1));
                i = i + 1;
            }
            None
        },
        _ => None,
    }
}

fn member_string<'a>(v: Option<&'a JsonValue>, key: &str) -> (r: Option<&'a String>)
    ensures
        match r {
            Some(s) => member_str(
                match v {
                    Some(x) => Some(*x),
                    None => None,
                },
                key@,
            ) == Some(s@),
            None => member_str(
                match v {
                    Some(x) => Some(*x),
                    None => None,
                },
                key@,
            ) is None,
        },
{
    match v {
        Some(x) => match json_get(x, key) {
            Some(JsonValue::Str(s)) => Some(s),
            _ => None,
        },
        None => None,
    }
}

/// The recommended questions of an API answer, as `[id, title]` pairs.
pub fn questions_from_json(v: &JsonValue) -> (r: Vec<[String; 2]>)
    ensures
        question_pairs(r@) == recommended_questions(*v),
{
    let mut r: Vec<[String; 2]> = Vec::new();
    match json_get(v, "data") {
        Some(JsonValue::Array(items)) => {
            let mut i: usize = 0;
            while i < items.len()
                invariant
                    i <= items.len(),
                    question_pairs(r@) == questions_of_items(items@.take(i as int)),
                decreases items.len() - i,
            {
                proof {
                    assert(items@.take(i + 1).drop_last() =~= items@.take(i as int));
                    assert(items@.take(i + 1).last() == items@[i as int]);
                }
                let q = json_get(&items[i], "question");
                let id = member_string(q, "id");
                let title = member_string(q, "title");
                match (id, title) {
                    (Some(id), Some(title)) => {
                        r.push([id.clone(), title.clone()]);
                        assert(question_pairs(r@) =~= questions_of_items(items@.take(i + 1)));
                    },
                    _ => {},
                }
                i = i + 1;
            }
            assert(items@.take(items.len() as int) =~= items@);
        },
        _ => {
            assert(question_pairs(r@) =~= Seq::<(Seq<char>, Seq<char>)>::empty());
        },
    }
    r
}

/// The recommended questions of an API answer given as text. The text
/// must be JSON (`try_get_question_list` answers `None` otherwise).
pub fn get_question_list(base: String) -> (r: Vec<[String; 2]>)
    requires
        parsed_json(base@) is Some,
    ensures
        question_pairs(r@) == recommended_questions(parsed_json(base@).unwrap()),
{
    match parse_json(base.as_str()) {
        Some(v) => questions_from_json(&v),
        None => Vec::new(),
    }
}

/// The recommended questions of an API answer given as text; `None` when
/// the text is not JSON.
pub fn try_get_question_list(base: String) -> (r: Option<Vec<[String; 2]>>)
    ensures
        match r {
            Some(qs) => parsed_json(base@) is Some && question_pairs(qs@) == recommended_questions(
                parsed_json(base@).unwrap(),
            ),
            None => parsed_json(base@) is None,
        },
{
    match parse_json(base.as_str()) {
        Some(_) => Some(get_question_list(base)),
        None => None,
    }
}

} // verus!
