use vstd::prelude::*;
use crate::error::Error;
use crate::filter::Literal;

verus! {

/// A statement template and the values that the executor binds after the
/// caller's own, in placeholder order.
/// A statement is immutable once built.
#[derive(Debug)]
pub struct Query {
    raw_cql: String,
    query_values: Vec<Literal>,
}

impl Query {
    /// The statement text.
    pub closed spec fn text(&self) -> Seq<char> {
        self.raw_cql@
    }

    /// The retained values, in placeholder order.
    pub closed spec fn values(&self) -> Seq<Literal> {
        self.query_values@
    }

    pub fn new(raw_cql: &str, query_values: Vec<Literal>) -> (r: Query)
        ensures
            r.text() == raw_cql@,
            r.values() == query_values@,
    {
        Query { raw_cql: String::from_str(raw_cql), query_values }
    }

    pub fn get_raw_cql(&self) -> (r: &str)
        ensures
            r@ == self.text(),
    {
        self.raw_cql.as_str()
    }

    pub fn get_query_values(&self) -> (r: &Vec<Literal>)
        ensures
            r@ == self.values(),
    {
        &self.query_values
    }

    /// The values to bind: the caller's first, for the placeholders that come
    /// first in the text, then the ones the statement retained from its
    /// predicates.
    pub fn get_merged_query_values(&self, custom_query_values: &Vec<Literal>) -> (r: Vec<Literal>)
        ensures
            r@ == custom_query_values@ + self.values(),
    {
        let mut values: Vec<Literal> = Vec::new();
        let mut i: usize = 0;
        while i < custom_query_values.len()
            invariant
                i <= custom_query_values@.len(),
                values@ == custom_query_values@.take(i as int),
            decreases custom_query_values@.len() - i,
        {
            values.push(custom_query_values[i].copied());
            i = i + 1;
            assert(values@ =~= custom_query_values@.take(i as int));
        }
        let mut j: usize = 0;
        while j < self.query_values.len()
            invariant
                j <= self.query_values@.len(),
                values@ == custom_query_values@ + self.query_values@.take(j as int),
            decreases self.query_values@.len() - j,
        {
            values.push(self.query_values[j].copied());
            j = j + 1;
            assert(values@ =~= custom_query_values@ + self.query_values@.take(j as int));
        }
        assert(custom_query_values@.take(custom_query_values@.len() as int) =~= custom_query_values@);
        assert(self.query_values@.take(self.query_values@.len() as int) =~= self.query_values@);
        values
    }

    /// The outcome of a single-row read from the rows it returned: the first
    /// row, or `NotFound` when there is none. An empty result is an expected
    /// outcome, not a store failure.
    pub fn get_instance<R>(rows: Vec<R>) -> (r: Result<R, Error>)
        ensures
            rows@.len() == 0 <==> r matches Err(Error::NotFound),
            rows@.len() > 0 ==> r == Ok::<R, Error>(rows@[0]),
    {
        let mut rows = rows;
        if rows.len() == 0 {
            Err(Error::NotFound)
        } else {
            Ok(rows.remove(0))
        }
    }
}

} // verus!
