use vstd::prelude::*;
use crate::error::Error;
use crate::filter::Literal;
use crate::ids::{hyphenated, parse_uuid, uuid_of, uuid_text};

verus! {

/// One trade listing as stored. Times are milliseconds since the Unix epoch.
#[derive(Debug)]
pub struct Trade {
    pub id: u128,
    pub item_id: u128,
    pub item_name: String,
    pub bid_price: i64,
    pub buyout_price: i64,
    pub created_by: u128,
    pub created_by_username: String,
    pub created_at: i64,
    pub bought_by: u128,
    pub bought_by_username: String,
    pub expired_at: i64,
    pub is_deleted: bool,
}

/// A request to list an item for trade.
#[derive(Debug)]
pub struct CreateTradeRequest {
    pub item_id: String,
    pub item_name: String,
    pub bid_price: i64,
    pub buyout_price: i64,
    pub created_by: String,
    pub created_by_username: String,
    /// Seconds until the trade expires; 0 for none.
    pub expire_in: i64,
}

/// A trade as reported to clients. Times are seconds since the Unix epoch.
#[derive(Debug)]
pub struct TradeDetail {
    pub id: String,
    pub item_id: String,
    pub item_name: String,
    pub bid_price: i64,
    pub buyout_price: i64,
    pub created_at: i64,
    pub created_by: String,
    pub created_by_username: String,
    pub bought_by: String,
    pub bought_by_username: String,
    pub expired_at: Option<i64>,
}

pub const DAY_MILLIS: i64 = 86_400_000;

/// The expiry of a trade created at `now`: one day before creation when none
/// is asked for, so that it reads as unset; `expire_in` seconds after it
/// otherwise.
pub open spec fn expiry(now: int, expire_in: int) -> int {
    if expire_in == 0 {
        now - DAY_MILLIS
    } else {
        now + expire_in * 1000
    }
}

/// Whole seconds of a time in milliseconds, rounded down.
pub open spec fn seconds(ms: i64) -> int {
    (ms as int) / 1000
}

impl Trade {
    pub fn item_id(&self) -> (r: u128)
        ensures
            r == self.item_id,
    {
        self.item_id
    }

    pub fn created_by(&self) -> (r: u128)
        ensures
            r == self.created_by,
    {
        self.created_by
    }

    pub fn bid_price(&self) -> (r: i64)
        ensures
            r == self.bid_price,
    {
        self.bid_price
    }

    pub fn buyout_price(&self) -> (r: i64)
        ensures
            r == self.buyout_price,
    {
        self.buyout_price
    }

    pub fn bought_by(&self) -> (r: u128)
        ensures
            r == self.bought_by,
    {
        self.bought_by
    }

    /// The record's values in the order of the trade columns.
    pub fn into_query_values(self) -> (r: Vec<Literal>)
        ensures
            r@.len() == 12,
            r@[0] == Literal::Uuid(self.id),
            r@[1] == Literal::Uuid(self.item_id),
            r@[2] == Literal::Text(self.item_name),
            r@[3] == Literal::BigInt(self.bid_price),
            r@[4] == Literal::BigInt(self.buyout_price),
            r@[5] == Literal::Uuid(self.created_by),
            r@[6] == Literal::Text(self.created_by_username),
            r@[7] == Literal::Timestamp(self.created_at),
            r@[8] == Literal::Uuid(self.bought_by),
            r@[9] == Literal::Text(self.bought_by_username),
            r@[10] == Literal::Timestamp(self.expired_at),
            r@[11] == Literal::Boolean(self.is_deleted),
    {
        let mut v: Vec<Literal> = Vec::new();
        v.push(Literal::Uuid(self.id));
        v.push(Literal::Uuid(self.item_id));
        v.push(Literal::Text(self.item_name));
        v.push(Literal::BigInt(self.bid_price));
        v.push(Literal::BigInt(self.buyout_price));
        v.push(Literal::Uuid(self.created_by));
        v.push(Literal::Text(self.created_by_username));
        v.push(Literal::Timestamp(self.created_at));
        v.push(Literal::Uuid(self.bought_by));
        v.push(Literal::Text(self.bought_by_username));
        v.push(Literal::Timestamp(self.expired_at));
        v.push(Literal::Boolean(self.is_deleted));
        v
    }

    /// A new, unbought trade for the request, with the given id, created at
    /// `now`. Fails when an id of the request is no UUID, or when the expiry
    /// does not fit in a timestamp.
    pub fn from_request(request: CreateTradeRequest, id: u128, now: i64) -> (r: Result<Trade, Error>)
        ensures
            match (uuid_of(request.item_id@), uuid_of(request.created_by@)) {
                (Some(item), Some(creator)) => {
                    let exp = expiry(now as int, request.expire_in as int);
                    if i64::MIN <= exp <= i64::MAX {
                        r matches Ok(t) && t.id == id && t.item_id == item && t.item_name
                            == request.item_name && t.bid_price == request.bid_price
                            && t.buyout_price == request.buyout_price && t.created_by == creator
                            && t.created_by_username == request.created_by_username
                            && t.created_at == now && t.bought_by == 0
                            && t.bought_by_username@.len() == 0 && t.expired_at == exp
                            && !t.is_deleted
                    } else {
                        r matches Err(Error::ValidationError { field, .. }) && field@ == "expire_in"@
                    }
                },
                _ => r matches Err(Error::ValidationError { .. }),
            },
    {
        let item_id = match parse_uuid(request.item_id.as_str()) {
            Some(v) => v,
            None => {
                return Err(
                    Error::ValidationError {
                        field: String::from_str("item_id"),
                        message: String::from_str("not a valid UUID"),
                    },
                );
            },
        };
        let created_by = match parse_uuid(request.created_by.as_str()) {
            Some(v) => v,
            None => {
                return Err(
                    Error::ValidationError {
                        field: String::from_str("created_by"),
                        message: String::from_str("not a valid UUID"),
                    },
                );
            },
        };
        let wide: i128 = if request.expire_in == 0 {
            now as i128 - DAY_MILLIS as i128
        } else {
            now as i128 + request.expire_in as i128 * 1000
        };
        let expired_at: Option<i64> = if i64::MIN as i128 <= wide && wide <= i64::MAX as i128 {
            Some(wide as i64)
        } else {
            None
        };
        let expired_at = match expired_at {
            Some(t) => t,
            None => {
                return Err(
                    Error::ValidationError {
                        field: String::from_str("expire_in"),
                        message: String::from_str("The expiry is out of range."),
                    },
                );
            },
        };
        Ok(
            Trade {
                id,
                item_id,
                item_name: request.item_name,
                bid_price: request.bid_price,
                buyout_price: request.buyout_price,
                created_by,
                created_by_username: request.created_by_username,
                created_at: now,
                bought_by: 0,
                bought_by_username: String::new(),
                expired_at,
                is_deleted: false,
            },
        )
    }
}

fn whole_seconds(ms: i64) -> (r: i64)
    ensures
        r == seconds(ms),
{
    let q = ms / 1000;
    let rem = ms % 1000;
    if rem < 0 {
        q - 1
    } else {
        q
    }
}

impl TradeDetail {
    /// The client's view of a trade: ids as text, times in whole seconds, and
    /// an expiry only when it lies after creation.
    pub fn from_trade(instance: &Trade) -> (r: TradeDetail)
        ensures
            r.id@ == hyphenated(instance.id),
            r.item_id@ == hyphenated(instance.item_id),
            r.item_name@ == instance.item_name@,
            r.bid_price == instance.bid_price,
            r.buyout_price == instance.buyout_price,
            r.created_at == seconds(instance.created_at),
            r.created_by@ == hyphenated(instance.created_by),
            r.created_by_username@ == instance.created_by_username@,
            r.bought_by@ == hyphenated(instance.bought_by),
            r.bought_by_username@ == instance.bought_by_username@,
            r.expired_at == if instance.expired_at > instance.created_at {
                Some(seconds(instance.expired_at) as i64)
            } else {
                None::<i64>
            },
    {
        let created_at = whole_seconds(instance.created_at);
        let expired_at = if instance.expired_at > instance.created_at {
            Some(whole_seconds(instance.expired_at))
        } else {
            None
        };
        TradeDetail {
            id: uuid_text(instance.id),
            item_id: uuid_text(instance.item_id),
            item_name: instance.item_name.clone(),
            bid_price: instance.bid_price,
            buyout_price: instance.buyout_price,
            created_at,
            created_by: uuid_text(instance.created_by),
            created_by_username: instance.created_by_username.clone(),
            bought_by: uuid_text(instance.bought_by),
            bought_by_username: instance.bought_by_username.clone(),
            expired_at,
        }
    }
}

} // verus!
