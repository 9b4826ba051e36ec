use vstd::prelude::*;
use crate::error::Error;
use crate::filter::{CustomFilter, Filter, IntoCustomFilter, Literal, Operator};
use crate::filters::{
    FilterParams, ItemBidPriceRangeFilter, ItemBuyoutPriceRangeFilter, ItemNameFilter,
};
use crate::query::Query;
use crate::query_builder::{
    bound_values, concat_groups, group_filters, insert_text, select_text, update_text,
    QueryBuilder, QueryType,
};
use crate::text::views;

verus! {

/// The table that holds the trades.
pub const TRADE_TABLE: &'static str = "trading_post.trade";

/// The columns of a trade, in the order of its stored record.
pub open spec fn trade_columns() -> Seq<Seq<char>> {
    seq![
        "id"@,
        "item_id"@,
        "item_name"@,
        "bid_price"@,
        "buyout_price"@,
        "created_by"@,
        "created_by_username"@,
        "created_at"@,
        "bought_by"@,
        "bought_by_username"@,
        "expired_at"@,
        "is_deleted"@,
    ]
}

/// The columns that a bid changes.
pub open spec fn bid_columns() -> Seq<Seq<char>> {
    seq!["bid_price"@, "bought_by"@, "bought_by_username"@]
}

fn trade_builder() -> (r: QueryBuilder)
    ensures
        r.table@ == TRADE_TABLE@,
        views(r.columns@) == trade_columns(),
        r.query_type == QueryType::Select,
        r.limit is None,
        r.filters@.len() == 0,
        r.group_filters@.len() == 0,
        !r.allow_filtering,
{
    let columns: [&str; 12] = [
        "id",
        "item_id",
        "item_name",
        "bid_price",
        "buyout_price",
        "created_by",
        "created_by_username",
        "created_at",
        "bought_by",
        "bought_by_username",
        "expired_at",
        "is_deleted",
    ];
    let r = QueryBuilder::new(TRADE_TABLE).columns(columns.as_slice());
    assert(views(r.columns@) =~= trade_columns());
    r
}

/// `f` is an equality on `field` bound to `v`.
pub open spec fn is_eq(f: Filter, field: Seq<char>, v: Literal) -> bool {
    &&& f.field_name@ == field
    &&& f.operator == Operator::Eq
    &&& f.value == Some(v)
}

/// The predicates of a group that may be absent.
pub open spec fn group_seq(g: Option<CustomFilter>) -> Seq<Filter> {
    match g {
        Some(g) => g.filters@,
        None => Seq::empty(),
    }
}

/// The predicates of a trade listing: live trades only, then the name, bid
/// range and buyout range groups that the request asks for, in that order.
pub open spec fn listing_predicates(fs: Seq<Filter>, params: &FilterParams) -> bool {
    exists|n: Option<CustomFilter>, b: Option<CustomFilter>, u: Option<CustomFilter>|
        {
            &&& (ItemNameFilter { params }).yields(n)
            &&& (ItemBidPriceRangeFilter { params }).yields(b)
            &&& (ItemBuyoutPriceRangeFilter { params }).yields(u)
            &&& fs.len() > 0
            &&& is_eq(fs[0], "is_deleted"@, Literal::Boolean(false))
            &&& #[trigger] fs.drop_first() == group_seq(n) + group_seq(b) + group_seq(u)
        }
}

fn push_present(groups: &mut Vec<CustomFilter>, g: Option<CustomFilter>)
    ensures
        final(groups)@ == match g {
            Some(g) => old(groups)@.push(g),
            None => old(groups)@,
        },
{
    match g {
        Some(g) => groups.push(g),
        None => {},
    }
}

/// The statement that lists live trades matching the request's filters, with
/// a permissive scan since the filters are not all on the primary key.
pub fn list_trades_query(filter_params: &FilterParams) -> (r: Query)
    ensures
        exists|fs: Seq<Filter>|
            {
                &&& listing_predicates(fs, filter_params)
                &&& r.text() == select_text(TRADE_TABLE@, trade_columns(), fs, None, true)
                &&& #[trigger] bound_values(fs) == r.values()
            },
{
    let n = ItemNameFilter::new(filter_params).into_custom_filter();
    let b = ItemBidPriceRangeFilter::new(filter_params).into_custom_filter();
    let u = ItemBuyoutPriceRangeFilter::new(filter_params).into_custom_filter();
    let ghost (gn, gb, gu) = (n, b, u);
    let mut groups: Vec<CustomFilter> = Vec::new();
    push_present(&mut groups, n);
    push_present(&mut groups, b);
    push_present(&mut groups, u);
    let mut refs: Vec<&CustomFilter> = Vec::new();
    let mut i: usize = 0;
    while i < groups.len()
        invariant
            i <= groups@.len(),
            refs@.len() == i,
            forall|k: int| 0 <= k < i ==> *(#[trigger] refs@[k]) == groups@[k],
        decreases groups@.len() - i,
    {
        refs.push(&groups[i]);
        i = i + 1;
    }
    let builder = trade_builder().allow_filtering(true).filter_by(
        Filter::new("is_deleted", Operator::Eq, Some(Literal::Boolean(false))),
    ).custom_filters(refs.as_slice());
    proof {
        let gs = group_filters(refs@);
        let fs = builder.predicates();
        assert(gs =~= groups@.map_values(|g: CustomFilter| g.filters@));
        assert(concat_groups(gs) =~= group_seq(gn) + group_seq(gb) + group_seq(gu)) by {
            let s0 = Seq::<Seq<Filter>>::empty();
            assert(concat_groups(s0) =~= Seq::<Filter>::empty());
            let s1 = if gn is Some { s0.push(group_seq(gn)) } else { s0 };
            let s2 = if gb is Some { s1.push(group_seq(gb)) } else { s1 };
            let s3 = if gu is Some { s2.push(group_seq(gu)) } else { s2 };
            assert(gs =~= s3);
            if gn is Some { assert(s1.drop_last() =~= s0); }
            if gb is Some { assert(s2.drop_last() =~= s1); }
            if gu is Some { assert(s3.drop_last() =~= s2); }
            assert(concat_groups(s1) =~= group_seq(gn));
            assert(concat_groups(s2) =~= group_seq(gn) + group_seq(gb));
        }
        assert(fs.drop_first() =~= group_seq(gn) + group_seq(gb) + group_seq(gu));
        assert(listing_predicates(fs, filter_params));
    }
    builder.build()
}

/// The statement that reads one live trade by its id.
pub fn trade_read_query(trade_id: u128) -> (r: Query)
    ensures
        exists|fs: Seq<Filter>|
            {
                &&& fs.len() == 2
                &&& is_eq(fs[0], "id"@, Literal::Uuid(trade_id))
                &&& is_eq(fs[1], "is_deleted"@, Literal::Boolean(false))
                &&& r.text() == select_text(TRADE_TABLE@, trade_columns(), fs, Some(1), true)
                &&& #[trigger] bound_values(fs) == r.values()
            },
{
    let builder = trade_builder().limit(1).filter_by(
        Filter::new("id", Operator::Eq, Some(Literal::Uuid(trade_id))),
    ).filter_by(Filter::new("is_deleted", Operator::Eq, Some(Literal::Boolean(false)))).allow_filtering(true);
    let r = builder.build();
    assert(builder.predicates() =~= builder.filters@);
    r
}

/// The statement that stores a new trade; the trade's record supplies all the
/// values.
pub fn trade_insert_query() -> (r: Query)
    ensures
        r.text() == insert_text(TRADE_TABLE@, trade_columns()),
        r.values().len() == 0,
{
    trade_builder().query_type(QueryType::Insert).build()
}

/// The statement that records a bid on a trade, addressed by the trade's
/// full key; the caller binds the new bid, bidder and bidder's name.
pub fn bid_update_query(trade_id: u128, item_id: u128, created_by: u128) -> (r: Query)
    ensures
        exists|fs: Seq<Filter>|
            {
                &&& fs.len() == 3
                &&& is_eq(fs[0], "id"@, Literal::Uuid(trade_id))
                &&& is_eq(fs[1], "item_id"@, Literal::Uuid(item_id))
                &&& is_eq(fs[2], "created_by"@, Literal::Uuid(created_by))
                &&& r.text() == update_text(TRADE_TABLE@, bid_columns(), fs, false)
                &&& #[trigger] bound_values(fs) == r.values()
            },
{
    let columns: [&str; 3] = ["bid_price", "bought_by", "bought_by_username"];
    let builder = QueryBuilder::new(TRADE_TABLE).query_type(QueryType::Update).columns(
        columns.as_slice(),
    ).filter_by(Filter::new("id", Operator::Eq, Some(Literal::Uuid(trade_id)))).filter_by(
        Filter::new("item_id", Operator::Eq, Some(Literal::Uuid(item_id))),
    ).filter_by(Filter::new("created_by", Operator::Eq, Some(Literal::Uuid(created_by))));
    assert(views(builder.columns@) =~= bid_columns());
    assert(builder.predicates() =~= builder.filters@);
    builder.build()
}

/// The values a bid binds to the assignments of its update, in column order.
pub fn bid_update_values(amount: i64, user_id: u128, username: &str) -> (r: Vec<Literal>)
    ensures
        r@.len() == 3,
        r@[0] == Literal::BigInt(amount),
        r@[1] == Literal::Uuid(user_id),
        r@[2] matches Literal::Text(s) && s@ == username@,
{
    let mut values: Vec<Literal> = Vec::new();
    values.push(Literal::BigInt(amount));
    values.push(Literal::Uuid(user_id));
    values.push(Literal::Text(String::from_str(username)));
    values
}

/// A bid must exceed the current price and stay below the buyout price.
pub fn check_bid(amount: i64, bid_price: i64, buyout_price: i64) -> (r: Result<(), Error>)
    ensures
        r is Ok <==> bid_price < amount && amount < buyout_price,
        r matches Err(e) ==> e matches Error::ValidationError { field, .. } && field@ == "amount"@,
{
    if amount <= bid_price {
        return Err(
            Error::ValidationError {
                field: String::from_str("amount"),
                message: String::from_str("The bid can't be less that the current price."),
            },
        );
    }
    if amount >= buyout_price {
        return Err(
            Error::ValidationError {
                field: String::from_str("amount"),
                message: String::from_str("The bid can't be greater that the buyout price."),
            },
        );
    }
    Ok(())
}

} // verus!
