use vstd::prelude::*;
use crate::error::Error;
use crate::ids::{parse_uuid, uuid_of};
use crate::trade::CreateTradeRequest;
use crate::validation::Validate;

verus! {

/// A bid on a trade.
#[derive(Debug)]
pub struct BidRequest {
    pub id: String,
    pub user_id: String,
    pub username: String,
    pub amount: i64,
}

/// An immediate purchase of a trade at its buyout price.
#[derive(Debug)]
pub struct BuyoutRequest {
    pub id: String,
    pub user_id: String,
    pub username: String,
    pub amount: i64,
}

/// The withdrawal of a trade by its owner.
#[derive(Debug)]
pub struct CancelTradeRequest {
    pub id: String,
    pub user_id: String,
}

fn invalid(field: &str, message: String) -> (r: Result<(), Error>)
    ensures
        r matches Err(Error::ValidationError { field: f, .. }) && f@ == field@,
{
    Err(Error::ValidationError { field: String::from_str(field), message })
}

fn not_uuid(field: &str, text: &String) -> (r: Result<(), Error>)
    ensures
        r matches Err(Error::ValidationError { field: f, .. }) && f@ == field@,
{
    let mut message = text.clone();
    message.append(" is not a valid UUID.");
    invalid(field, message)
}

/// The first failing check of a purchase: ids, then the buyer's name, then a
/// positive amount.
pub open spec fn purchase_violation(
    id: Seq<char>,
    user_id: Seq<char>,
    username: Seq<char>,
    amount: i64,
) -> Option<Seq<char>> {
    if uuid_of(id) is None {
        Some("id"@)
    } else if uuid_of(user_id) is None {
        Some("user_id"@)
    } else if username.len() == 0 {
        Some("username"@)
    } else if amount <= 0 {
        Some("amount"@)
    } else {
        None
    }
}

fn validate_purchase(id: &String, user_id: &String, username: &String, amount: i64) -> (r: Result<
    (),
    Error,
>)
    ensures
        r is Ok <==> purchase_violation(id@, user_id@, username@, amount) is None,
        r matches Err(e) ==> e matches Error::ValidationError { field, .. } && purchase_violation(
            id@,
            user_id@,
            username@,
            amount,
        ) == Some(field@),
{
    if parse_uuid(id.as_str()).is_none() {
        return not_uuid("id", id);
    }
    if parse_uuid(user_id.as_str()).is_none() {
        return not_uuid("user_id", user_id);
    }
    if username.as_str().is_empty() {
        return invalid("username", String::from_str("This field can't be empty."));
    }
    if amount <= 0 {
        return invalid("amount", String::from_str("The amount must be a positive value."));
    }
    Ok(())
}

impl Validate for CreateTradeRequest {
    /// Ids must be UUIDs and names non-empty; the initial price must be
    /// positive and, with a buyout price set, not above it; the expiry must
    /// not be negative.
    open spec fn violation(&self) -> Option<Seq<char>> {
        if uuid_of(self.item_id@) is None {
            Some("item_id"@)
        } else if self.item_name@.len() == 0 {
            Some("item_name"@)
        } else if uuid_of(self.created_by@) is None {
            Some("created_by"@)
        } else if self.created_by_username@.len() == 0 {
            Some("item_name"@)
        } else if self.bid_price <= 0 {
            Some("bid_price"@)
        } else if self.buyout_price > 0 && self.bid_price > self.buyout_price {
            Some("buyout_price"@)
        } else if self.expire_in < 0 {
            Some("expire_in"@)
        } else {
            None
        }
    }

    fn validate(&self) -> (r: Result<(), Error>) {
        if parse_uuid(self.item_id.as_str()).is_none() {
            return not_uuid("item_id", &self.item_id);
        }
        if self.item_name.as_str().is_empty() {
            return invalid("item_name", String::from_str("This field can't be empty."));
        }
        if parse_uuid(self.created_by.as_str()).is_none() {
            return not_uuid("created_by", &self.item_id);
        }
        if self.created_by_username.as_str().is_empty() {
            return invalid("item_name", String::from_str("This field can't be empty."));
        }
        if self.bid_price <= 0 {
            return invalid("bid_price", String::from_str("The item must have an initial price."));
        }
        if self.buyout_price > 0 && self.bid_price > self.buyout_price {
            return invalid(
                "buyout_price",
                String::from_str("The buyout price must be greater than the bid price"),
            );
        }
        if self.expire_in < 0 {
            return invalid(
                "expire_in",
                String::from_str("The expire duration must be zero or a positive value."),
            );
        }
        Ok(())
    }
}

impl Validate for BidRequest {
    open spec fn violation(&self) -> Option<Seq<char>> {
        purchase_violation(self.id@, self.user_id@, self.username@, self.amount)
    }

    fn validate(&self) -> (r: Result<(), Error>) {
        validate_purchase(&self.id, &self.user_id, &self.username, self.amount)
    }
}

impl Validate for BuyoutRequest {
    open spec fn violation(&self) -> Option<Seq<char>> {
        purchase_violation(self.id@, self.user_id@, self.username@, self.amount)
    }

    fn validate(&self) -> (r: Result<(), Error>) {
        validate_purchase(&self.id, &self.user_id, &self.username, self.amount)
    }
}

impl Validate for CancelTradeRequest {
    open spec fn violation(&self) -> Option<Seq<char>> {
        if uuid_of(self.id@) is None {
            Some("id"@)
        } else if uuid_of(self.user_id@) is None {
            Some("user_id"@)
        } else {
            None
        }
    }

    fn validate(&self) -> (r: Result<(), Error>) {
        if parse_uuid(self.id.as_str()).is_none() {
            return not_uuid("id", &self.id);
        }
        if parse_uuid(self.user_id.as_str()).is_none() {
            return not_uuid("user_id", &self.user_id);
        }
        Ok(())
    }
}

} // verus!
