use pikadick::rule34::{
    Rule34Limits, Rule34QueryStat, Rule34Source, autocomplete_queries, choose_rule34_source, fresh_query_stat,
    is_simple_query, post_page_url, post_reply_content, post_tags, query_stat_key, random_post_limit,
    split_autocomplete_input,
};

const LIMITS: Rule34Limits = Rule34Limits { post_list_limit_max: 1000, ratelimit_budget: 10 };
const DAY_NS: i128 = 86_400_000_000_000;

fn stat(queries: u32, last_ms: i64) -> Rule34QueryStat {
    Rule34QueryStat { query: "cat".to_string(), queries_since_last_fetch: queries, last_fetched_ms: last_ms }
}

#[test]
fn source_choice() {
    let now = 10 * DAY_NS;
    let fresh_ms = ((now - DAY_NS) / 1_000_000) as i64;
    assert_eq!(choose_rule34_source(Some(&stat(1, fresh_ms)), now, 10, 3, LIMITS), Rule34Source::UseCached(2));
    assert_eq!(choose_rule34_source(Some(&stat(1, fresh_ms)), now + 1, 10, 3, LIMITS), Rule34Source::FetchNew);
    assert_eq!(choose_rule34_source(None, now, 10, 3, LIMITS), Rule34Source::FetchNew);
    assert_eq!(choose_rule34_source(Some(&stat(250, fresh_ms)), now, 10, 3, LIMITS), Rule34Source::UseCached(2));
    assert_eq!(choose_rule34_source(Some(&stat(251, fresh_ms)), now, 10, 3, LIMITS), Rule34Source::FetchNew);
    assert_eq!(choose_rule34_source(Some(&stat(1, fresh_ms)), now, 4, 3, LIMITS), Rule34Source::FetchNew);
    assert_eq!(choose_rule34_source(Some(&stat(1, fresh_ms)), now, 5, 3, LIMITS), Rule34Source::UseCached(2));
    assert_eq!(choose_rule34_source(Some(&stat(1, fresh_ms)), now, 10, 0, LIMITS), Rule34Source::FetchNew);
}

#[test]
fn simple_queries() {
    assert!(is_simple_query(None));
    assert!(is_simple_query(Some("cat")));
    assert!(is_simple_query(Some("")));
    assert!(!is_simple_query(Some("cat dog")));
    assert!(!is_simple_query(Some(" ")));
}

#[test]
fn lookup_parameters() {
    assert_eq!(query_stat_key(None), "");
    assert_eq!(query_stat_key(Some("cat")), "cat");
    assert_eq!(random_post_limit(None), 10);
    assert_eq!(random_post_limit(Some(3)), 3);
    let s = fresh_query_stat(Some("cat"), 5);
    assert_eq!((s.query.as_str(), s.queries_since_last_fetch, s.last_fetched_ms), ("cat", 1, 5));
    assert_eq!(fresh_query_stat(None, 5).query, "");
}

#[test]
fn post_texts() {
    assert_eq!(post_page_url(123), "https://rule34.xxx/index.php?page=post&s=view&id=123");
    assert_eq!(
        post_reply_content(123, "https://img.example/1.png"),
        "[Rule34 123](https://rule34.xxx/index.php?page=post&s=view&id=123)\nhttps://img.example/1.png"
    );
}

#[test]
fn tags_of_a_post() {
    assert_eq!(post_tags("a b  a c "), vec!["a".to_string(), "b".to_string(), "c".to_string()]);
    assert!(post_tags("").is_empty());
    assert!(post_tags("   ").is_empty());
    assert_eq!(post_tags("solo"), vec!["solo".to_string()]);
}

#[test]
fn autocomplete() {
    let (head, tail) = split_autocomplete_input("foo bar ba");
    assert_eq!((head.as_deref(), tail.as_str()), (Some("foo bar"), "ba"));
    let (head, tail) = split_autocomplete_input("ba");
    assert_eq!((head.as_deref(), tail.as_str()), (None, "ba"));
    let (head, tail) = split_autocomplete_input("foo ");
    assert_eq!((head.as_deref(), tail.as_str()), (Some("foo"), ""));
    let tags = vec!["bat".to_string(), "bag".to_string()];
    assert_eq!(autocomplete_queries(Some("foo bar"), &tags), vec!["foo bar bat".to_string(), "foo bar bag".to_string()]);
    assert_eq!(autocomplete_queries(None, &tags), tags);
}
