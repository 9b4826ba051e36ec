use vstd::prelude::*;
use crate::filter::{all_wf, operator_text, CustomFilter, Filter, Literal, Operator};
use crate::query::Query;
use crate::text::{decimal, escape_quotes, join, push_decimal, push_escaped, push_joined, views};

verus! {

/// The kind of statement to build.
#[derive(Debug, Clone, Copy, PartialEq, Eq, Structural)]
pub enum QueryType {
    Select,
    Insert,
    Update,
}

/// The keyword that opens a statement of the kind.
pub open spec fn keyword(t: QueryType) -> Seq<char> {
    match t {
        QueryType::Select => "SELECT"@,
        QueryType::Insert => "INSERT INTO"@,
        QueryType::Update => "UPDATE"@,
    }
}

impl QueryType {
    pub fn to_string(&self) -> (r: String)
        ensures
            r@ == keyword(*self),
    {
        match self {
            QueryType::Select => String::from_str("SELECT"),
            QueryType::Insert => String::from_str("INSERT INTO"),
            QueryType::Update => String::from_str("UPDATE"),
        }
    }
}

/// One predicate as it stands in a WHERE clause: a bound comparison, or a
/// substring match with its pattern inlined between quotes.
pub open spec fn filter_text(f: Filter) -> Seq<char> {
    match f.operator {
        Operator::LikeContains(pattern) => f.field_name@ + " LIKE '"@ + escape_quotes(pattern@)
            + "'"@,
        _ => f.field_name@ + " "@ + operator_text(f.operator) + " ?"@,
    }
}

pub open spec fn filter_texts(fs: Seq<Filter>) -> Seq<Seq<char>> {
    fs.map_values(|f: Filter| filter_text(f))
}

/// The predicates joined by the conjunction.
pub open spec fn where_clause(fs: Seq<Filter>) -> Seq<char> {
    "WHERE "@ + join(filter_texts(fs), " AND "@)
}

/// The WHERE clause with its leading space, or nothing without predicates.
pub open spec fn where_part(fs: Seq<Filter>) -> Seq<char> {
    if fs.len() > 0 {
        " "@ + where_clause(fs)
    } else {
        Seq::empty()
    }
}

pub open spec fn limit_part(limit: Option<usize>) -> Seq<char> {
    match limit {
        Some(n) => " LIMIT "@ + decimal(n as nat),
        None => Seq::empty(),
    }
}

pub open spec fn allow_part(allow: bool) -> Seq<char> {
    if allow {
        " ALLOW FILTERING"@
    } else {
        Seq::empty()
    }
}

/// One placeholder per column.
pub open spec fn placeholders(n: nat) -> Seq<Seq<char>> {
    Seq::new(n, |i: int| "?"@)
}

/// One assignment of a bound value per column.
pub open spec fn assignments(columns: Seq<Seq<char>>) -> Seq<Seq<char>> {
    columns.map_values(|c: Seq<char>| c + " = ?"@)
}

pub open spec fn select_text(
    table: Seq<char>,
    columns: Seq<Seq<char>>,
    fs: Seq<Filter>,
    limit: Option<usize>,
    allow: bool,
) -> Seq<char> {
    "SELECT "@ + join(columns, ", "@) + " FROM "@ + table + where_part(fs) + limit_part(limit)
        + allow_part(allow)
}

pub open spec fn insert_text(table: Seq<char>, columns: Seq<Seq<char>>) -> Seq<char> {
    "INSERT INTO "@ + table + " ("@ + join(columns, ", "@) + ") VALUES ("@ + join(
        placeholders(columns.len()),
        ", "@,
    ) + ")"@
}

pub open spec fn update_text(
    table: Seq<char>,
    columns: Seq<Seq<char>>,
    fs: Seq<Filter>,
    allow: bool,
) -> Seq<char> {
    "UPDATE "@ + table + " SET "@ + join(assignments(columns), ", "@) + where_part(fs)
        + allow_part(allow)
}

/// The values of the bound predicates, in predicate order.
pub open spec fn bound_values(fs: Seq<Filter>) -> Seq<Literal>
    decreases fs.len(),
{
    if fs.len() == 0 {
        Seq::empty()
    } else {
        match fs.last().value {
            Some(v) => bound_values(fs.drop_last()).push(v),
            None => bound_values(fs.drop_last()),
        }
    }
}

/// The predicate groups' predicates, one group after the other.
pub open spec fn concat_groups(groups: Seq<Seq<Filter>>) -> Seq<Filter>
    decreases groups.len(),
{
    if groups.len() == 0 {
        Seq::empty()
    } else {
        concat_groups(groups.drop_last()) + groups.last()
    }
}

pub open spec fn group_filters(groups: Seq<&CustomFilter>) -> Seq<Seq<Filter>> {
    groups.map_values(|g: &CustomFilter| g.filters@)
}

proof fn lemma_join_push(parts: Seq<Seq<char>>, x: Seq<char>, sep: Seq<char>)
    ensures
        join(parts.push(x), sep) == if parts.len() == 0 {
            x
        } else {
            join(parts, sep) + sep + x
        },
{
    assert(parts.push(x).drop_last() == parts);
}

proof fn lemma_texts_step(fs: Seq<Filter>, k: int)
    requires
        0 <= k < fs.len(),
    ensures
        filter_texts(fs.take(k + 1)) == filter_texts(fs.take(k)).push(filter_text(fs[k])),
        fs.take(k + 1).drop_last() == fs.take(k),
        fs.take(k + 1).last() == fs[k],
{
    assert(filter_texts(fs.take(k + 1)) =~= filter_texts(fs.take(k)).push(filter_text(fs[k])));
    assert(fs.take(k + 1).drop_last() =~= fs.take(k));
}

/// Appends one predicate as it stands in a WHERE clause.
fn push_filter(s: &mut String, f: &Filter)
    ensures
        final(s)@ == old(s)@ + filter_text(*f),
{
    s.append(f.field_name.as_str());
    match &f.operator {
        Operator::LikeContains(pattern) => {
            s.append(" LIKE '");
            push_escaped(s, pattern.as_str());
            s.append("'");
        },
        _ => {
            s.append(" ");
            let op = f.operator.to_string();
            s.append(op.as_str());
            s.append(" ?");
        },
    }
}

/// Compiles a table, a column list, predicates and modifiers into a statement.
#[derive(Debug)]
pub struct QueryBuilder {
    pub query_type: QueryType,
    pub table: String,
    pub columns: Vec<String>,
    pub limit: Option<usize>,
    /// The single predicates, in the order they were added.
    pub filters: Vec<Filter>,
    /// The predicates of the groups, in the order the groups were supplied.
    pub group_filters: Vec<Filter>,
    pub allow_filtering: bool,
}

impl QueryBuilder {
    /// All predicates of the statement: the single ones first, then the groups'.
    pub open spec fn predicates(&self) -> Seq<Filter> {
        self.filters@ + self.group_filters@
    }

    pub open spec fn wf(&self) -> bool {
        all_wf(self.predicates())
    }

    /// The statement text that `build` produces.
    pub open spec fn text(&self) -> Seq<char> {
        match self.query_type {
            QueryType::Select => select_text(
                self.table@,
                views(self.columns@),
                self.predicates(),
                self.limit,
                self.allow_filtering,
            ),
            QueryType::Insert => insert_text(self.table@, views(self.columns@)),
            QueryType::Update => update_text(
                self.table@,
                views(self.columns@),
                self.predicates(),
                self.allow_filtering,
            ),
        }
    }

    /// The values that `build` retains for binding: none for an insert, which
    /// ignores predicates.
    pub open spec fn values(&self) -> Seq<Literal> {
        match self.query_type {
            QueryType::Insert => Seq::empty(),
            _ => bound_values(self.predicates()),
        }
    }

    /// A select over `table` with no columns, predicates or modifiers.
    pub fn new(table: &str) -> (r: QueryBuilder)
        ensures
            r.query_type == QueryType::Select,
            r.table@ == table@,
            r.columns@.len() == 0,
            r.limit is None,
            r.filters@.len() == 0,
            r.group_filters@.len() == 0,
            !r.allow_filtering,
    {
        QueryBuilder {
            query_type: QueryType::Select,
            table: String::from_str(table),
            columns: Vec::new(),
            limit: None,
            filters: Vec::new(),
            group_filters: Vec::new(),
            allow_filtering: false,
        }
    }

    pub fn query_type(self, query_type: QueryType) -> (r: QueryBuilder)
        ensures
            r == (QueryBuilder { query_type, ..self }),
    {
        QueryBuilder { query_type, ..self }
    }

    pub fn columns(self, columns: &[&str]) -> (r: QueryBuilder)
        ensures
            views(r.columns@) == columns@.map_values(|c: &str| c@),
            r == (QueryBuilder { columns: r.columns, ..self }),
    {
        let mut owned: Vec<String> = Vec::new();
        let mut i: usize = 0;
        while i < columns.len()
            invariant
                i <= columns@.len(),
                owned@.len() == i,
                forall|k: int| 0 <= k < i ==> (#[trigger] owned@[k])@ == columns@[k]@,
            decreases columns@.len() - i,
        {
            owned.push(String::from_str(columns[i]));
            i = i + 1;
        }
        assert(views(owned@) =~= columns@.map_values(|c: &str| c@));
        QueryBuilder { columns: owned, ..self }
    }

    pub fn limit(self, limit: usize) -> (r: QueryBuilder)
        ensures
            r == (QueryBuilder { limit: Some(limit), ..self }),
    {
        QueryBuilder { limit: Some(limit), ..self }
    }

    /// Adds a single predicate after the single predicates added before it.
    pub fn filter_by(self, filter: Filter) -> (r: QueryBuilder)
        ensures
            r.filters@ == self.filters@.push(filter),
            r == (QueryBuilder { filters: r.filters, ..self }),
    {
        let mut s = self;
        s.filters.push(filter);
        s
    }

    /// Adds the predicates of each group, the groups in the order supplied.
    pub fn custom_filters(self, custom_filters: &[&CustomFilter]) -> (r: QueryBuilder)
        ensures
            r.group_filters@ == self.group_filters@ + concat_groups(
                group_filters(custom_filters@),
            ),
            r == (QueryBuilder { group_filters: r.group_filters, ..self }),
    {
        let mut s = self;
        let ghost start = s.group_filters@;
        let mut i: usize = 0;
        while i < custom_filters.len()
            invariant
                i <= custom_filters@.len(),
                s.group_filters@ == start + concat_groups(
                    group_filters(custom_filters@).take(i as int),
                ),
                s == (QueryBuilder { group_filters: s.group_filters, ..self }),
            decreases custom_filters@.len() - i,
        {
            let group: &CustomFilter = custom_filters[i];
            let ghost before = s.group_filters@;
            let mut j: usize = 0;
            while j < group.filters.len()
                invariant
                    j <= group.filters@.len(),
                    s.group_filters@ == before + group.filters@.take(j as int),
                    s == (QueryBuilder { group_filters: s.group_filters, ..self }),
                decreases group.filters@.len() - j,
            {
                s.group_filters.push(group.filters[j].copied());
                proof {
                    assert(group.filters@.take(j + 1) == group.filters@.take(j as int).push(
                        group.filters@[j as int],
                    ));
                }
                j = j + 1;
            }
            proof {
                let gs = group_filters(custom_filters@);
                assert(gs.take(i + 1).drop_last() == gs.take(i as int));
                assert(gs.take(i + 1).last() == group.filters@);
                assert(group.filters@.take(group.filters@.len() as int) == group.filters@);
                assert(s.group_filters@ == start + concat_groups(gs.take(i + 1)));
            }
            i = i + 1;
        }
        assert(group_filters(custom_filters@).take(custom_filters@.len() as int) == group_filters(
            custom_filters@,
        ));
        s
    }

    pub fn allow_filtering(self, value: bool) -> (r: QueryBuilder)
        ensures
            r == (QueryBuilder { allow_filtering: value, ..self }),
    {
        QueryBuilder { allow_filtering: value, ..self }
    }

    /// The statement and the values it retains for binding.
    pub fn build(&self) -> (r: Query)
        ensures
            r.text() == self.text(),
            r.values() == self.values(),
    {
        let raw_cql = match self.query_type {
            QueryType::Select => self.build_select_query(),
            QueryType::Insert => self.build_insert_query(),
            QueryType::Update => self.build_update_query(),
        };
        let query_values = match self.query_type {
            QueryType::Insert => Vec::new(),
            _ => self.get_query_values(),
        };
        Query::new(raw_cql.as_str(), query_values)
    }

    pub fn build_select_query(&self) -> (r: String)
        ensures
            r@ == select_text(
                self.table@,
                views(self.columns@),
                self.predicates(),
                self.limit,
                self.allow_filtering,
            ),
    {
        let mut s = String::from_str("SELECT ");
        push_joined(&mut s, &self.columns, ", ");
        s.append(" FROM ");
        s.append(self.table.as_str());
        let ghost head = s@;
        if self.filters.len() > 0 || self.group_filters.len() > 0 {
            s.append(" ");
            let w = self.build_where_clause();
            s.append(w.as_str());
        }
        assert(s@ =~= head + where_part(self.predicates()));
        let ghost head = s@;
        match self.limit {
            Some(n) => {
                s.append(" LIMIT ");
                push_decimal(&mut s, n);
            },
            None => {},
        }
        assert(s@ =~= head + limit_part(self.limit));
        if self.allow_filtering {
            s.append(" ALLOW FILTERING");
        }
        s
    }

    pub fn build_insert_query(&self) -> (r: String)
        ensures
            r@ == insert_text(self.table@, views(self.columns@)),
    {
        let mut s = String::from_str("INSERT INTO ");
        s.append(self.table.as_str());
        s.append(" (");
        push_joined(&mut s, &self.columns, ", ");
        s.append(") VALUES (");
        let ghost head = s@;
        let mut i: usize = 0;
        while i < self.columns.len()
            invariant
                i <= self.columns@.len(),
                s@ == head + join(placeholders(i as nat), ", "@),
            decreases self.columns@.len() - i,
        {
            proof {
                assert(placeholders((i + 1) as nat) =~= placeholders(i as nat).push("?"@));
                lemma_join_push(placeholders(i as nat), "?"@, ", "@);
            }
            if i > 0 {
                s.append(", ");
            }
            s.append("?");
            i = i + 1;
        }
        proof {
            assert(views(self.columns@).len() == self.columns@.len());
        }
        s.append(")");
        s
    }

    pub fn build_update_query(&self) -> (r: String)
        ensures
            r@ == update_text(
                self.table@,
                views(self.columns@),
                self.predicates(),
                self.allow_filtering,
            ),
    {
        let mut s = String::from_str("UPDATE ");
        s.append(self.table.as_str());
        s.append(" SET ");
        let ghost head = s@;
        let ghost assigned = assignments(views(self.columns@));
        let mut i: usize = 0;
        while i < self.columns.len()
            invariant
                i <= self.columns@.len(),
                assigned == assignments(views(self.columns@)),
                assigned.len() == self.columns@.len(),
                s@ == head + join(assigned.take(i as int), ", "@),
            decreases self.columns@.len() - i,
        {
            proof {
                assert(assigned.take(i + 1) =~= assigned.take(i as int).push(assigned[i as int]));
                lemma_join_push(assigned.take(i as int), assigned[i as int], ", "@);
            }
            if i > 0 {
                s.append(", ");
            }
            s.append(self.columns[i].as_str());
            s.append(" = ?");
            i = i + 1;
        }
        assert(assigned.take(self.columns@.len() as int) == assigned);
        let ghost head = s@;
        if self.filters.len() > 0 || self.group_filters.len() > 0 {
            s.append(" ");
            let w = self.build_where_clause();
            s.append(w.as_str());
        }
        assert(s@ =~= head + where_part(self.predicates()));
        if self.allow_filtering {
            s.append(" ALLOW FILTERING");
        }
        s
    }

    /// The predicates, single ones first, joined by the conjunction.
    pub fn build_where_clause(&self) -> (r: String)
        ensures
            r@ == where_clause(self.predicates()),
    {
        let ghost all = self.predicates();
        let n1 = self.filters.len();
        let mut s = String::from_str("WHERE ");
        let mut i: usize = 0;
        while i < n1
            invariant
                n1 == self.filters@.len(),
                all == self.predicates(),
                i <= n1,
                s@ == "WHERE "@ + join(filter_texts(all.take(i as int)), " AND "@),
            decreases n1 - i,
        {
            proof {
                lemma_texts_step(all, i as int);
                lemma_join_push(filter_texts(all.take(i as int)), filter_text(all[i as int]), " AND "@);
            }
            if i > 0 {
                s.append(" AND ");
            }
            push_filter(&mut s, &self.filters[i]);
            i = i + 1;
        }
        let mut j: usize = 0;
        while j < self.group_filters.len()
            invariant
                n1 == self.filters@.len(),
                all == self.predicates(),
                j <= self.group_filters@.len(),
                s@ == "WHERE "@ + join(filter_texts(all.take(n1 + j)), " AND "@),
            decreases self.group_filters@.len() - j,
        {
            proof {
                lemma_texts_step(all, n1 + j);
                lemma_join_push(filter_texts(all.take(n1 + j)), filter_text(all[n1 + j]), " AND "@);
            }
            if n1 > 0 || j > 0 {
                s.append(" AND ");
            }
            push_filter(&mut s, &self.group_filters[j]);
            j = j + 1;
        }
        assert(all.take(all.len() as int) == all);
        s
    }

    /// The literals of the bound predicates, single ones first, in order.
    pub fn get_query_values(&self) -> (r: Vec<Literal>)
        ensures
            r@ == bound_values(self.predicates()),
    {
        let ghost all = self.predicates();
        let n1 = self.filters.len();
        let mut values: Vec<Literal> = Vec::new();
        let mut i: usize = 0;
        while i < n1
            invariant
                n1 == self.filters@.len(),
                all == self.predicates(),
                i <= n1,
                values@ == bound_values(all.take(i as int)),
            decreases n1 - i,
        {
            proof {
                lemma_texts_step(all, i as int);
            }
            match self.filters[i].get_value() {
                Some(v) => values.push(v),
                None => {},
            }
            i = i + 1;
        }
        let mut j: usize = 0;
        while j < self.group_filters.len()
            invariant
                n1 == self.filters@.len(),
                all == self.predicates(),
                j <= self.group_filters@.len(),
                values@ == bound_values(all.take(n1 + j)),
            decreases self.group_filters@.len() - j,
        {
            proof {
                lemma_texts_step(all, n1 + j);
            }
            match self.group_filters[j].get_value() {
                Some(v) => values.push(v),
                None => {},
            }
            j = j + 1;
        }
        assert(all.take(all.len() as int) == all);
        values
    }
}

} // verus!
