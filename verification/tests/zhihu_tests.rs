use aichdl::zhihu::{get_question_list, init_urls, questions_from_json, try_get_question_list, JsonValue};

#[test]
fn url_table_knows_the_question_endpoint() {
    let urls = init_urls();
    assert_eq!(
        urls.get("question"),
        Some("https://www.zhihu.com/api/v4/creators/question_route/author_related/recommend?limit=200&offset=0&page_source=web_author_recommend&recom_domain_score_ab=1")
    );
    assert_eq!(urls.get("home"), Some("https://www.zhihu.com/"));
    assert_eq!(urls.get("write"), Some("https://zhuanlan.zhihu.com/write"));
    assert_eq!(urls.get("nothing"), None);
}

#[test]
fn question_list_from_api_answer() {
    let body = r#"{"data":[
        {"question":{"id":"111","title":"第一个问题"}},
        {"question":{"id":222,"title":"数字 id 被跳过"}},
        {"question":{"title":"缺 id"}},
        {"other":1},
        {"question":{"id":"333","title":"第三个","extra":true}}
    ],"paging":{}}"#;
    let qs = get_question_list(body.to_string());
    assert_eq!(
        qs,
        vec![
            ["111".to_string(), "第一个问题".to_string()],
            ["333".to_string(), "第三个".to_string()]
        ]
    );
}

#[test]
fn question_list_without_data_array_is_empty() {
    assert!(get_question_list(r#"{"data":{"a":1}}"#.to_string()).is_empty());
    assert!(get_question_list(r#"[1,2]"#.to_string()).is_empty());
    assert!(get_question_list(r#"{"error":"login"}"#.to_string()).is_empty());
}

#[test]
fn invalid_json_gives_none() {
    assert!(try_get_question_list("<html>".to_string()).is_none());
    assert_eq!(try_get_question_list(r#"{"data":[]}"#.to_string()), Some(vec![]));
}

#[test]
fn questions_from_a_value_built_by_hand() {
    let item = JsonValue::Object(vec![(
        "question".to_string(),
        JsonValue::Object(vec![
            ("id".to_string(), JsonValue::Str("9".to_string())),
            ("title".to_string(), JsonValue::Str("t".to_string())),
        ]),
    )]);
    let v = JsonValue::Object(vec![("data".to_string(), JsonValue::Array(vec![item, JsonValue::Null]))]);
    assert_eq!(questions_from_json(&v), vec![["9".to_string(), "t".to_string()]]);
}
