use trading_post::auction::{
    bid_update_query, bid_update_values, check_bid, list_trades_query, trade_insert_query,
    trade_read_query,
};
use trading_post::error::Error;
use trading_post::filter::Literal;
use trading_post::filters::FilterParams;
use trading_post::trade::{CreateTradeRequest, Trade, TradeDetail};
use trading_post::validation::Validate;
use trading_post::validators::{BidRequest, BuyoutRequest, CancelTradeRequest};

const COLUMNS: &str = "id, item_id, item_name, bid_price, buyout_price, created_by, created_by_username, created_at, bought_by, bought_by_username, expired_at, is_deleted";
const SOME_ID: &str = "550e8400-e29b-41d4-a716-446655440000";
const SOME_ID_VALUE: u128 = 0x550e8400e29b41d4a716446655440000;

fn describe(values: &[Literal]) -> Vec<String> {
    values.iter().map(|v| format!("{:?}", v)).collect()
}

fn no_filters() -> FilterParams {
    FilterParams {
        name: None,
        min_price: None,
        max_price: None,
        min_buyout_price: None,
        max_buyout_price: None,
    }
}

fn request() -> CreateTradeRequest {
    CreateTradeRequest {
        item_id: String::from(SOME_ID),
        item_name: String::from("sword"),
        bid_price: 10,
        buyout_price: 100,
        created_by: String::from("00000000-0000-0000-0000-000000000001"),
        created_by_username: String::from("smith"),
        expire_in: 0,
    }
}

#[test]
fn listing_without_filters_keeps_live_trades() {
    let query = list_trades_query(&no_filters());
    assert_eq!(
        query.get_raw_cql(),
        format!("SELECT {} FROM trading_post.trade WHERE is_deleted = ? ALLOW FILTERING", COLUMNS)
    );
    assert_eq!(describe(query.get_query_values()), vec!["Boolean(false)"]);
}

#[test]
fn listing_groups_follow_name_then_bid_then_buyout() {
    let mut params = no_filters();
    params.name = Some(String::from("axe"));
    params.min_price = Some(5);
    params.max_buyout_price = Some(50);
    let query = list_trades_query(&params);
    assert_eq!(
        query.get_raw_cql(),
        format!(
            "SELECT {} FROM trading_post.trade WHERE is_deleted = ? AND item_name LIKE '%axe%' AND bid_price >= ? AND buyout_price <= ? ALLOW FILTERING",
            COLUMNS
        )
    );
    assert_eq!(
        describe(query.get_query_values()),
        vec!["Boolean(false)", "BigInt(5)", "BigInt(50)"]
    );
}

#[test]
fn read_query_addresses_one_live_trade() {
    let query = trade_read_query(7);
    assert_eq!(
        query.get_raw_cql(),
        format!(
            "SELECT {} FROM trading_post.trade WHERE id = ? AND is_deleted = ? LIMIT 1 ALLOW FILTERING",
            COLUMNS
        )
    );
    assert_eq!(describe(query.get_query_values()), vec!["Uuid(7)", "Boolean(false)"]);
}

#[test]
fn insert_query_binds_every_column() {
    let query = trade_insert_query();
    assert_eq!(
        query.get_raw_cql(),
        format!(
            "INSERT INTO trading_post.trade ({}) VALUES (?, ?, ?, ?, ?, ?, ?, ?, ?, ?, ?, ?)",
            COLUMNS
        )
    );
    assert!(query.get_query_values().is_empty());
}

#[test]
fn bid_update_binds_assignments_then_key() {
    let query = bid_update_query(1, 2, 3);
    assert_eq!(
        query.get_raw_cql(),
        "UPDATE trading_post.trade SET bid_price = ?, bought_by = ?, bought_by_username = ? WHERE id = ? AND item_id = ? AND created_by = ?"
    );
    let merged = query.get_merged_query_values(&bid_update_values(40, 9, "bob"));
    assert_eq!(
        describe(&merged),
        vec!["BigInt(40)", "Uuid(9)", "Text(\"bob\")", "Uuid(1)", "Uuid(2)", "Uuid(3)"]
    );
}

#[test]
fn bids_must_lie_between_price_and_buyout() {
    assert!(check_bid(11, 10, 100).is_ok());
    assert!(matches!(check_bid(10, 10, 100), Err(Error::ValidationError { .. })));
    assert!(matches!(check_bid(100, 10, 100), Err(Error::ValidationError { .. })));
}

#[test]
fn trade_from_request_without_expiry_expires_a_day_early() {
    let trade = Trade::from_request(request(), 42, 1_000_000_000_000).expect("valid request");
    assert_eq!(trade.id, 42);
    assert_eq!(trade.item_id(), SOME_ID_VALUE);
    assert_eq!(trade.created_by(), 1);
    assert_eq!(trade.bought_by(), 0);
    assert_eq!(trade.bid_price(), 10);
    assert_eq!(trade.buyout_price(), 100);
    assert_eq!(trade.expired_at, 1_000_000_000_000 - 86_400_000);
    assert!(!trade.is_deleted);
}

#[test]
fn trade_from_request_with_expiry_adds_seconds() {
    let mut req = request();
    req.expire_in = 60;
    let trade = Trade::from_request(req, 1, 5_000).expect("valid request");
    assert_eq!(trade.expired_at, 65_000);
}

#[test]
fn trade_from_request_refuses_bad_ids() {
    let mut req = request();
    req.item_id = String::from("not-a-uuid");
    assert!(matches!(Trade::from_request(req, 1, 0), Err(Error::ValidationError { .. })));
}

#[test]
fn trade_from_request_refuses_an_expiry_out_of_range() {
    let mut req = request();
    req.expire_in = i64::MAX;
    assert!(matches!(
        Trade::from_request(req, 1, 0),
        Err(Error::ValidationError { ref field, .. }) if field == "expire_in"
    ));
}

#[test]
fn record_values_follow_the_columns() {
    let trade = Trade::from_request(request(), 42, 3_000).expect("valid request");
    let values = describe(&trade.into_query_values());
    assert_eq!(values.len(), 12);
    assert_eq!(values[0], "Uuid(42)");
    assert_eq!(values[2], "Text(\"sword\")");
    assert_eq!(values[7], "Timestamp(3000)");
    assert_eq!(values[11], "Boolean(false)");
}

#[test]
fn detail_shows_ids_as_text_and_hides_unset_expiry() {
    let trade = Trade::from_request(request(), SOME_ID_VALUE, -1_500).expect("valid request");
    let detail = TradeDetail::from_trade(&trade);
    assert_eq!(detail.id, SOME_ID);
    assert_eq!(detail.item_id, SOME_ID);
    assert_eq!(detail.created_by, "00000000-0000-0000-0000-000000000001");
    assert_eq!(detail.bought_by, "00000000-0000-0000-0000-000000000000");
    assert_eq!(detail.created_at, -2);
    assert_eq!(detail.expired_at, None);
}

#[test]
fn detail_shows_a_later_expiry_in_seconds() {
    let mut req = request();
    req.expire_in = 90;
    let trade = Trade::from_request(req, 1, 10_000).expect("valid request");
    let detail = TradeDetail::from_trade(&trade);
    assert_eq!(detail.created_at, 10);
    assert_eq!(detail.expired_at, Some(100));
}

fn field_of(r: Result<(), Error>) -> String {
    match r {
        Err(Error::ValidationError { field, .. }) => field,
        _ => String::from("none"),
    }
}

#[test]
fn create_request_checks_in_order() {
    assert!(request().validate().is_ok());
    let mut r = request();
    r.item_id = String::from("x");
    assert_eq!(field_of(r.validate()), "item_id");
    let mut r = request();
    r.item_name = String::new();
    assert_eq!(field_of(r.validate()), "item_name");
    let mut r = request();
    r.created_by = String::from("x");
    assert_eq!(field_of(r.validate()), "created_by");
    let mut r = request();
    r.bid_price = 0;
    assert_eq!(field_of(r.validate()), "bid_price");
    let mut r = request();
    r.bid_price = 200;
    assert_eq!(field_of(r.validate()), "buyout_price");
    let mut r = request();
    r.expire_in = -1;
    assert_eq!(field_of(r.validate()), "expire_in");
}

#[test]
fn purchase_requests_need_ids_name_and_amount() {
    let bid = BidRequest {
        id: String::from(SOME_ID),
        user_id: String::from(SOME_ID),
        username: String::from("bob"),
        amount: 5,
    };
    assert!(bid.validate().is_ok());
    let bad = BidRequest { amount: 0, ..bid };
    assert_eq!(field_of(bad.validate()), "amount");
    let buyout = BuyoutRequest {
        id: String::from(SOME_ID),
        user_id: String::from("nope"),
        username: String::from("bob"),
        amount: 5,
    };
    assert_eq!(field_of(buyout.validate()), "user_id");
    let unnamed = BuyoutRequest {
        id: String::from(SOME_ID),
        user_id: String::from(SOME_ID),
        username: String::new(),
        amount: 5,
    };
    assert_eq!(field_of(unnamed.validate()), "username");
    let cancel = CancelTradeRequest { id: String::from(""), user_id: String::from(SOME_ID) };
    assert_eq!(field_of(cancel.validate()), "id");
    let fine = CancelTradeRequest { id: String::from(SOME_ID), user_id: String::from(SOME_ID) };
    assert!(fine.validate().is_ok());
}
