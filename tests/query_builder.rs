use trading_post::filter::{CustomFilter, Filter, Operator};
use trading_post::query_builder::{QueryBuilder, QueryType};

#[test]
fn test_build_select_query() {
    let query = QueryBuilder::new("trading_post.trade")
        .columns(&["id", "item_id", "item_name"])
        .build_select_query();

    assert_eq!(
        query,
        "SELECT id, item_id, item_name FROM trading_post.trade"
    );
}

#[test]
fn test_build_select_query_with_limit() {
    let query = QueryBuilder::new("trading_post.trade")
        .columns(&["id", "item_id", "item_name"])
        .limit(1)
        .build_select_query();

    assert_eq!(
        query,
        "SELECT id, item_id, item_name FROM trading_post.trade LIMIT 1"
    );
}

#[test]
fn test_build_select_query_with_filter() {
    let query = QueryBuilder::new("trading_post.trade")
        .columns(&["id", "item_id", "item_name"])
        .filter_by(Filter::new("id", Operator::Eq, Some(5.into())))
        .build_select_query();

    assert_eq!(
        query,
        "SELECT id, item_id, item_name FROM trading_post.trade WHERE id = ?"
    );
}

#[test]
fn test_build_select_query_with_filter_and_limit() {
    let query = QueryBuilder::new("trading_post.trade")
        .columns(&["id", "item_id", "item_name"])
        .filter_by(Filter::new("id", Operator::Eq, Some(5.into())))
        .limit(1)
        .build_select_query();

    assert_eq!(
        query,
        "SELECT id, item_id, item_name FROM trading_post.trade WHERE id = ? LIMIT 1"
    );
}

#[test]
fn test_build_select_query_with_filter_and_allow_filtering() {
    let query = QueryBuilder::new("trading_post.trade")
        .columns(&["id", "item_id", "item_name"])
        .allow_filtering(true)
        .filter_by(Filter::new("id", Operator::Eq, Some(5.into())))
        .build_select_query();

    assert_eq!(
        query,
        "SELECT id, item_id, item_name FROM trading_post.trade WHERE id = ? ALLOW FILTERING"
    );
}

#[test]
fn test_build_select_query_with_filter_and_limit_and_allow_filtering() {
    let query = QueryBuilder::new("trading_post.trade")
        .columns(&["id", "item_id", "item_name"])
        .limit(1)
        .allow_filtering(true)
        .filter_by(Filter::new("id", Operator::Eq, Some(5.into())))
        .build_select_query();

    assert_eq!(
        query,
        "SELECT id, item_id, item_name FROM trading_post.trade WHERE id = ? LIMIT 1 ALLOW FILTERING"
    );
}

#[test]
fn test_build_select_query_with_custom_filters() {
    let query = QueryBuilder::new("trading_post.trade")
        .columns(&["id", "item_id", "item_name"])
        .custom_filters(&[&CustomFilter::new(vec![Filter::new(
            "item_id",
            Operator::Eq,
            Some(5.into()),
        )])])
        .build_select_query();

    assert_eq!(
        query,
        "SELECT id, item_id, item_name FROM trading_post.trade WHERE item_id = ?"
    );
}

#[test]
fn test_build_select_query_with_custom_filters_and_allow_filtering() {
    let query = QueryBuilder::new("trading_post.trade")
        .columns(&["id", "item_id", "item_name"])
        .allow_filtering(true)
        .custom_filters(&[&CustomFilter::new(vec![Filter::new(
            "item_id",
            Operator::Eq,
            Some(5.into()),
        )])])
        .build_select_query();

    assert_eq!(
        query,
        "SELECT id, item_id, item_name FROM trading_post.trade WHERE item_id = ? ALLOW FILTERING"
    );
}

#[test]
fn test_build_select_query_with_like_check() {
    let query = QueryBuilder::new("trading_post.trade")
        .columns(&["id", "item_id", "item_name"])
        .filter_by(Filter::new(
            "item_name",
            Operator::LikeContains(String::from("%sword")),
            None,
        ))
        .build_select_query();

    assert_eq!(
        query,
        "SELECT id, item_id, item_name FROM trading_post.trade WHERE item_name LIKE '%sword'"
    );
}

#[test]
fn test_build_select_query_with_filter_and_custom_filters_and_allow_filtering() {
    let query = QueryBuilder::new("trading_post.trade")
        .columns(&["id", "item_id", "item_name"])
        .allow_filtering(true)
        .filter_by(Filter::new("id", Operator::Eq, Some(5.into())))
        .custom_filters(&[&CustomFilter::new(vec![Filter::new(
            "item_id",
            Operator::Eq,
            Some(5.into()),
        )])])
        .build_select_query();

    assert_eq!(
        query,
        "SELECT id, item_id, item_name FROM trading_post.trade WHERE id = ? AND item_id = ? ALLOW FILTERING"
    );
}

#[test]
fn test_build_insert_query() {
    let query = QueryBuilder::new("trading_post.trade")
        .query_type(QueryType::Insert)
        .columns(&["key", "value"])
        .build_insert_query();

    assert_eq!(
        query,
        "INSERT INTO trading_post.trade (key, value) VALUES (?, ?)"
    );
}

#[test]
fn test_build_update_query() {
    let query = QueryBuilder::new("trading_post.trade")
        .query_type(QueryType::Update)
        .columns(&["key", "value"])
        .build_update_query();

    assert_eq!(query, "UPDATE trading_post.trade SET key = ?, value = ?");
}

#[test]
fn test_build_update_query_with_filters() {
    let query = QueryBuilder::new("trading_post.trade")
        .query_type(QueryType::Update)
        .columns(&["key", "value"])
        .filter_by(Filter::new("key", Operator::Eq, Some(5.into())))
        .build_update_query();

    assert_eq!(
        query,
        "UPDATE trading_post.trade SET key = ?, value = ? WHERE key = ?"
    );
}

#[test]
fn test_build_update_query_with_filters_and_allow_filtering() {
    let query = QueryBuilder::new("trading_post.trade")
        .query_type(QueryType::Update)
        .columns(&["key", "value"])
        .allow_filtering(true)
        .filter_by(Filter::new("key", Operator::Eq, Some(5.into())))
        .build_update_query();

    assert_eq!(
        query,
        "UPDATE trading_post.trade SET key = ?, value = ? WHERE key = ? ALLOW FILTERING"
    );
}

#[test]
fn test_build_update_query_with_custom_filters() {
    let query = QueryBuilder::new("trading_post.trade")
        .query_type(QueryType::Update)
        .columns(&["key", "value"])
        .custom_filters(&[&CustomFilter::new(vec![Filter::new(
            "key",
            Operator::Eq,
            Some(5.into()),
        )])])
        .build_update_query();

    assert_eq!(
        query,
        "UPDATE trading_post.trade SET key = ?, value = ? WHERE key = ?"
    );
}

#[test]
fn test_build_update_query_with_custom_filters_and_allow_filtering() {
    let query = QueryBuilder::new("trading_post.trade")
        .query_type(QueryType::Update)
        .columns(&["key", "value"])
        .allow_filtering(true)
        .custom_filters(&[&CustomFilter::new(vec![Filter::new(
            "key",
            Operator::Eq,
            Some(5.into()),
        )])])
        .build_update_query();

    assert_eq!(
        query,
        "UPDATE trading_post.trade SET key = ?, value = ? WHERE key = ? ALLOW FILTERING"
    );
}

#[test]
fn test_build_update_query_with_filters_and_custom_filters_and_allow_filtering() {
    let query = QueryBuilder::new("trading_post.trade")
        .query_type(QueryType::Update)
        .columns(&["key", "value"])
        .allow_filtering(true)
        .filter_by(Filter::new("key", Operator::Eq, Some(5.into())))
        .custom_filters(&[&CustomFilter::new(vec![Filter::new(
            "value",
            Operator::Eq,
            Some(5.into()),
        )])])
        .build_update_query();

    assert_eq!(
        query,
        "UPDATE trading_post.trade SET key = ?, value = ? WHERE key = ? AND value = ? ALLOW FILTERING"
    );
}

#[test]
fn test_custom_filters_appear_always_in_end() {
    let query = QueryBuilder::new("trading_post.trade")
        .columns(&["id", "item_id", "item_name"])
        .allow_filtering(true)
        // intentionally placed before for builder behaviour check
        .custom_filters(&[&CustomFilter::new(vec![Filter::new(
            "item_id",
            Operator::Eq,
            Some(5.into()),
        )])])
        .filter_by(Filter::new("id", Operator::Eq, Some(5.into())))
        .build_select_query();

    assert_eq!(
        query,
        "SELECT id, item_id, item_name FROM trading_post.trade WHERE id = ? AND item_id = ? ALLOW FILTERING"
    );
}
