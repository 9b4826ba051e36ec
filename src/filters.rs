use vstd::prelude::*;
use crate::filter::{CustomFilter, Filter, IntoCustomFilter, Literal, Operator};

verus! {

/// The optional filter fields of a listing request.
#[derive(Debug, PartialEq, Eq)]
pub struct FilterParams {
    pub name: Option<String>,
    pub min_price: Option<i64>,
    pub max_price: Option<i64>,
    pub min_buyout_price: Option<i64>,
    pub max_buyout_price: Option<i64>,
}

/// `f` compares `field` by `op` against the bound integer `v`.
pub open spec fn compares(f: Filter, field: Seq<char>, op: Operator, v: i64) -> bool {
    &&& f.field_name@ == field
    &&& f.operator == op
    &&& f.value == Some(Literal::BigInt(v))
}

/// The group of a price range on `field`: a lower bound, then an upper bound,
/// each present when given; no group when neither is.
pub open spec fn range_group(
    field: Seq<char>,
    min: Option<i64>,
    max: Option<i64>,
    r: Option<CustomFilter>,
) -> bool {
    if min is None && max is None {
        r is None
    } else {
        r matches Some(g) && {
            let fs = g.filters@;
            match (min, max) {
                (Some(lo), Some(hi)) => fs.len() == 2 && compares(fs[0], field, Operator::Gte, lo)
                    && compares(fs[1], field, Operator::Lte, hi),
                (Some(lo), None) => fs.len() == 1 && compares(fs[0], field, Operator::Gte, lo),
                (None, Some(hi)) => fs.len() == 1 && compares(fs[0], field, Operator::Lte, hi),
                (None, None) => false,
            }
        }
    }
}

fn range_filter(field: &str, min: Option<i64>, max: Option<i64>) -> (r: Option<CustomFilter>)
    ensures
        range_group(field@, min, max, r),
        r matches Some(g) ==> g.wf(),
{
    let mut filters: Vec<Filter> = Vec::new();
    match min {
        Some(lo) => {
            filters.push(Filter::new(field, Operator::Gte, Some(Literal::BigInt(lo))));
        },
        None => {},
    }
    match max {
        Some(hi) => {
            filters.push(Filter::new(field, Operator::Lte, Some(Literal::BigInt(hi))));
        },
        None => {},
    }
    if filters.len() > 0 {
        Some(CustomFilter::new(filters))
    } else {
        None
    }
}

/// Items whose name contains the requested text.
pub struct ItemNameFilter<'a> {
    pub params: &'a FilterParams,
}

impl<'a> ItemNameFilter<'a> {
    pub fn new(params: &'a FilterParams) -> (r: ItemNameFilter<'a>)
        ensures
            r.params == params,
    {
        ItemNameFilter { params }
    }
}

impl<'a> IntoCustomFilter for ItemNameFilter<'a> {
    open spec fn yields(&self, r: Option<CustomFilter>) -> bool {
        match self.params.name {
            None => r is None,
            Some(name) => r matches Some(g) && g.filters@.len() == 1 && {
                let f = g.filters@[0];
                &&& f.field_name@ == "item_name"@
                &&& f.operator matches Operator::LikeContains(p) && p@ == "%"@ + name@ + "%"@
                &&& f.value is None
            },
        }
    }

    fn into_custom_filter(self) -> (r: Option<CustomFilter>) {
        match &self.params.name {
            Some(name) => {
                let mut pattern = String::from_str("%");
                pattern.append(name.as_str());
                pattern.append("%");
                let mut filters: Vec<Filter> = Vec::new();
                filters.push(Filter::new("item_name", Operator::LikeContains(pattern), None));
                Some(CustomFilter::new(filters))
            },
            None => None,
        }
    }
}

/// Items whose current bid lies in the requested range.
pub struct ItemBidPriceRangeFilter<'a> {
    pub params: &'a FilterParams,
}

impl<'a> ItemBidPriceRangeFilter<'a> {
    pub fn new(params: &'a FilterParams) -> (r: ItemBidPriceRangeFilter<'a>)
        ensures
            r.params == params,
    {
        ItemBidPriceRangeFilter { params }
    }
}

impl<'a> IntoCustomFilter for ItemBidPriceRangeFilter<'a> {
    open spec fn yields(&self, r: Option<CustomFilter>) -> bool {
        range_group("bid_price"@, self.params.min_price, self.params.max_price, r)
    }

    fn into_custom_filter(self) -> (r: Option<CustomFilter>) {
        range_filter("bid_price", self.params.min_price, self.params.max_price)
    }
}

/// Items whose buyout price lies in the requested range.
pub struct ItemBuyoutPriceRangeFilter<'a> {
    pub params: &'a FilterParams,
}

impl<'a> ItemBuyoutPriceRangeFilter<'a> {
    pub fn new(params: &'a FilterParams) -> (r: ItemBuyoutPriceRangeFilter<'a>)
        ensures
            r.params == params,
    {
        ItemBuyoutPriceRangeFilter { params }
    }
}

impl<'a> IntoCustomFilter for ItemBuyoutPriceRangeFilter<'a> {
    open spec fn yields(&self, r: Option<CustomFilter>) -> bool {
        range_group("buyout_price"@, self.params.min_buyout_price, self.params.max_buyout_price, r)
    }

    fn into_custom_filter(self) -> (r: Option<CustomFilter>) {
        range_filter("buyout_price", self.params.min_buyout_price, self.params.max_buyout_price)
    }
}

} // verus!
