use vstd::prelude::*;
use crate::filter::{all_wf, operator_text, Filter, Operator};
use crate::query_builder::{
    allow_part, assignments, bound_values, concat_groups, filter_text, filter_texts, insert_text,
    limit_part, placeholders, select_text, update_text, where_part, QueryBuilder,
};
use crate::text::{decimal, digit_char, escape_quotes, join, views};

verus! {

/// How often `c` occurs in `s`.
pub open spec fn count_char(s: Seq<char>, c: char) -> nat
    decreases s.len(),
{
    if s.len() == 0 {
        0
    } else {
        count_char(s.drop_last(), c) + if s.last() == c {
            1nat
        } else {
            0nat
        }
    }
}

/// No field name or pattern of the predicates holds a placeholder mark.
pub open spec fn unmarked(fs: Seq<Filter>) -> bool {
    forall|i: int|
        0 <= i < fs.len() ==> {
            &&& !(#[trigger] fs[i]).field_name@.contains('?')
            &&& (fs[i].operator matches Operator::LikeContains(p) ==> !p@.contains('?'))
        }
}

/// The values bound by the predicates of each group, one group after the other.
pub open spec fn group_values(groups: Seq<Seq<Filter>>) -> Seq<crate::filter::Literal>
    decreases groups.len(),
{
    if groups.len() == 0 {
        Seq::empty()
    } else {
        group_values(groups.drop_last()) + bound_values(groups.last())
    }
}

proof fn lemma_count_concat(a: Seq<char>, b: Seq<char>, c: char)
    ensures
        count_char(a + b, c) == count_char(a, c) + count_char(b, c),
    decreases b.len(),
{
    if b.len() > 0 {
        assert((a + b).drop_last() =~= a + b.drop_last());
        lemma_count_concat(a, b.drop_last(), c);
    } else {
        assert(a + b =~= a);
    }
}

proof fn lemma_count_absent(s: Seq<char>, c: char)
    requires
        !s.contains(c),
    ensures
        count_char(s, c) == 0,
    decreases s.len(),
{
    if s.len() > 0 {
        assert(!s.drop_last().contains(c)) by {
            if s.drop_last().contains(c) {
                let i = choose|i: int| 0 <= i < s.drop_last().len() && s.drop_last()[i] == c;
                assert(s[i] == c);
            }
        }
        assert(s[s.len() - 1] != c);
        lemma_count_absent(s.drop_last(), c);
    }
}

proof fn lemma_escape_count(p: Seq<char>)
    requires
        !p.contains('?'),
    ensures
        count_char(escape_quotes(p), '?') == 0,
    decreases p.len(),
{
    if p.len() > 0 {
        assert(!p.drop_last().contains('?')) by {
            if p.drop_last().contains('?') {
                let i = choose|i: int| 0 <= i < p.drop_last().len() && p.drop_last()[i] == '?';
                assert(p[i] == '?');
            }
        }
        assert(p[p.len() - 1] != '?');
        lemma_escape_count(p.drop_last());
        let rest = escape_quotes(p.drop_last());
        if p.last() == '\'' {
            lemma_count_concat(rest, seq!['\'', '\''], '?');
            assert(seq!['\'', '\''].drop_last() =~= seq!['\'']);
            assert(seq!['\''].drop_last() =~= Seq::<char>::empty());
            assert(count_char(Seq::<char>::empty(), '?') == 0);
            assert(count_char(seq!['\''], '?') == 0);
            assert(count_char(seq!['\'', '\''], '?') == 0);
        } else {
            assert(rest.push(p.last()).drop_last() == rest);
            assert(count_char(rest.push(p.last()), '?') == count_char(rest, '?'));
        }
    }
}

proof fn lemma_filter_count(f: Filter)
    requires
        f.wf(),
        !f.field_name@.contains('?'),
        f.operator matches Operator::LikeContains(p) ==> !p@.contains('?'),
    ensures
        count_char(filter_text(f), '?') == (if f.value is Some {
            1nat
        } else {
            0nat
        }),
{
    reveal_strlit(" LIKE '");
    reveal_strlit("'");
    reveal_strlit(" ");
    reveal_strlit(" ?");
    reveal_strlit("=");
    reveal_strlit("<=");
    reveal_strlit(">=");
    lemma_count_absent(f.field_name@, '?');
    match f.operator {
        Operator::LikeContains(p) => {
            lemma_count_absent(" LIKE '"@, '?');
            lemma_count_absent("'"@, '?');
            lemma_escape_count(p@);
            lemma_count_concat(f.field_name@, " LIKE '"@, '?');
            lemma_count_concat(f.field_name@ + " LIKE '"@, escape_quotes(p@), '?');
            lemma_count_concat(f.field_name@ + " LIKE '"@ + escape_quotes(p@), "'"@, '?');
        },
        _ => {
            let op = operator_text(f.operator);
            lemma_count_absent(" "@, '?');
            lemma_count_absent(op, '?');
            assert(" ?"@.drop_last() =~= " "@);
            lemma_count_concat(f.field_name@, " "@, '?');
            lemma_count_concat(f.field_name@ + " "@, op, '?');
            lemma_count_concat(f.field_name@ + " "@ + op, " ?"@, '?');
        },
    }
}

proof fn lemma_join_push(parts: Seq<Seq<char>>, x: Seq<char>, sep: Seq<char>)
    ensures
        join(parts.push(x), sep) == if parts.len() == 0 {
            x
        } else {
            join(parts, sep) + sep + x
        },
{
    assert(parts.push(x).drop_last() == parts);
}

proof fn lemma_where_count(fs: Seq<Filter>)
    requires
        all_wf(fs),
        unmarked(fs),
    ensures
        count_char(join(filter_texts(fs), " AND "@), '?') == bound_values(fs).len(),
    decreases fs.len(),
{
    if fs.len() > 0 {
        let init = fs.drop_last();
        assert(all_wf(init) && unmarked(init)) by {
            assert forall|i: int| 0 <= i < init.len() implies #[trigger] init[i] == fs[i] by {}
        }
        lemma_where_count(init);
        let f = fs.last();
        assert(f == fs[fs.len() - 1]);
        lemma_filter_count(f);
        assert(filter_texts(fs) =~= filter_texts(init).push(filter_text(f)));
        lemma_join_push(filter_texts(init), filter_text(f), " AND "@);
        if init.len() > 0 {
            reveal_strlit(" AND ");
            lemma_count_absent(" AND "@, '?');
            lemma_count_concat(join(filter_texts(init), " AND "@), " AND "@, '?');
            lemma_count_concat(
                join(filter_texts(init), " AND "@) + " AND "@,
                filter_text(f),
                '?',
            );
        } else {
            assert(filter_texts(init).len() == 0);
        }
    }
}

proof fn lemma_decimal_unmarked(n: nat)
    ensures
        count_char(decimal(n), '?') == 0,
    decreases n,
{
    if n < 10 {
        assert(digit_char(n) != '?');
        assert(seq![digit_char(n)].drop_last() =~= Seq::<char>::empty());
        assert(count_char(Seq::<char>::empty(), '?') == 0);
        assert(count_char(seq![digit_char(n)], '?') == 0);
    } else {
        lemma_decimal_unmarked(n / 10);
        assert(digit_char(n % 10) != '?');
        assert(decimal(n / 10).push(digit_char(n % 10)).drop_last() == decimal(n / 10));
        assert(count_char(decimal(n / 10).push(digit_char(n % 10)), '?') == 0);
    }
}

proof fn lemma_join_unmarked(parts: Seq<Seq<char>>, sep: Seq<char>)
    requires
        forall|i: int| 0 <= i < parts.len() ==> !(#[trigger] parts[i]).contains('?'),
        !sep.contains('?'),
    ensures
        count_char(join(parts, sep), '?') == 0,
    decreases parts.len(),
{
    if parts.len() > 0 {
        let init = parts.drop_last();
        assert forall|i: int| 0 <= i < init.len() implies !(#[trigger] init[i]).contains('?') by {
            assert(init[i] == parts[i]);
        }
        lemma_join_unmarked(init, sep);
        lemma_count_absent(parts.last(), '?');
        lemma_count_absent(sep, '?');
        if parts.len() > 1 {
            lemma_count_concat(join(init, sep), sep, '?');
            lemma_count_concat(join(init, sep) + sep, parts.last(), '?');
        }
    }
}

/// Within a select statement, every placeholder belongs to a predicate that is
/// not inlined, and each such predicate binds exactly one value: the number of
/// placeholder marks equals the number of bound values, whatever the order of
/// the predicates. Names and patterns are taken to hold no mark themselves.
pub proof fn lemma_select_placeholders(
    table: Seq<char>,
    columns: Seq<Seq<char>>,
    fs: Seq<Filter>,
    limit: Option<usize>,
    allow: bool,
)
    requires
        all_wf(fs),
        unmarked(fs),
        !table.contains('?'),
        forall|i: int| 0 <= i < columns.len() ==> !(#[trigger] columns[i]).contains('?'),
    ensures
        count_char(select_text(table, columns, fs, limit, allow), '?') == bound_values(fs).len(),
{
    reveal_strlit("SELECT ");
    reveal_strlit(", ");
    reveal_strlit(" FROM ");
    reveal_strlit(" LIMIT ");
    reveal_strlit(" ALLOW FILTERING");
    let c = '?';
    lemma_count_absent("SELECT "@, c);
    lemma_count_absent(", "@, c);
    lemma_count_absent(" FROM "@, c);
    lemma_count_absent(" LIMIT "@, c);
    lemma_count_absent(" ALLOW FILTERING"@, c);
    lemma_count_absent(table, c);
    lemma_join_unmarked(columns, ", "@);
    lemma_where_part_count(fs);
    let cols = join(columns, ", "@);
    let w = where_part(fs);
    let l = limit_part(limit);
    let a = allow_part(allow);
    match limit {
        Some(n) => {
            lemma_decimal_unmarked(n as nat);
            lemma_count_concat(" LIMIT "@, decimal(n as nat), c);
        },
        None => {},
    }
    assert(count_char(a, c) == 0);
    lemma_count_concat("SELECT "@, cols, c);
    lemma_count_concat("SELECT "@ + cols, " FROM "@, c);
    lemma_count_concat("SELECT "@ + cols + " FROM "@, table, c);
    lemma_count_concat("SELECT "@ + cols + " FROM "@ + table, w, c);
    lemma_count_concat("SELECT "@ + cols + " FROM "@ + table + w, l, c);
    lemma_count_concat("SELECT "@ + cols + " FROM "@ + table + w + l, a, c);
}

proof fn lemma_where_part_count(fs: Seq<Filter>)
    requires
        all_wf(fs),
        unmarked(fs),
    ensures
        count_char(where_part(fs), '?') == bound_values(fs).len(),
{
    reveal_strlit(" ");
    reveal_strlit("WHERE ");
    lemma_count_absent(" "@, '?');
    lemma_count_absent("WHERE "@, '?');
    if fs.len() > 0 {
        lemma_where_count(fs);
        lemma_count_concat(" "@ + "WHERE "@, join(filter_texts(fs), " AND "@), '?');
        lemma_count_concat(" "@, "WHERE "@, '?');
        assert(where_part(fs) =~= " "@ + "WHERE "@ + join(filter_texts(fs), " AND "@));
    } else {
        assert(bound_values(fs).len() == 0);
        assert(count_char(where_part(fs), '?') == 0);
    }
}

proof fn lemma_marked_join(parts: Seq<Seq<char>>, sep: Seq<char>)
    requires
        forall|i: int| 0 <= i < parts.len() ==> count_char(#[trigger] parts[i], '?') == 1,
        !sep.contains('?'),
    ensures
        count_char(join(parts, sep), '?') == parts.len(),
    decreases parts.len(),
{
    if parts.len() > 0 {
        let init = parts.drop_last();
        assert forall|i: int| 0 <= i < init.len() implies count_char(#[trigger] init[i], '?')
            == 1 by {
            assert(init[i] == parts[i]);
        }
        lemma_marked_join(init, sep);
        assert(count_char(parts.last(), '?') == 1) by {
            assert(parts.last() == parts[parts.len() - 1]);
        }
        if parts.len() > 1 {
            lemma_count_absent(sep, '?');
            lemma_count_concat(join(init, sep), sep, '?');
            lemma_count_concat(join(init, sep) + sep, parts.last(), '?');
        }
    }
}

/// Within an update, the assignments hold one placeholder per column and the
/// WHERE clause one per bound value, whatever the order of the predicates.
/// Names and patterns are taken to hold no mark themselves.
pub proof fn lemma_update_placeholders(
    table: Seq<char>,
    columns: Seq<Seq<char>>,
    fs: Seq<Filter>,
    allow: bool,
)
    requires
        all_wf(fs),
        unmarked(fs),
        !table.contains('?'),
        forall|i: int| 0 <= i < columns.len() ==> !(#[trigger] columns[i]).contains('?'),
    ensures
        count_char(update_text(table, columns, fs, allow), '?') == columns.len()
            + bound_values(fs).len(),
{
    reveal_strlit("UPDATE ");
    reveal_strlit(" SET ");
    reveal_strlit(", ");
    reveal_strlit(" = ?");
    reveal_strlit(" = ");
    reveal_strlit(" ALLOW FILTERING");
    let c = '?';
    lemma_count_absent("UPDATE "@, c);
    lemma_count_absent(" SET "@, c);
    lemma_count_absent(", "@, c);
    lemma_count_absent(" ALLOW FILTERING"@, c);
    lemma_count_absent(table, c);
    let a = assignments(columns);
    assert forall|i: int| 0 <= i < a.len() implies count_char(#[trigger] a[i], c) == 1 by {
        lemma_count_absent(columns[i], c);
        assert(" = ?"@.drop_last() =~= " = "@);
        lemma_count_absent(" = "@, c);
        lemma_count_concat(columns[i], " = ?"@, c);
    }
    lemma_marked_join(a, ", "@);
    lemma_where_part_count(fs);
    let w = where_part(fs);
    let l = allow_part(allow);
    assert(count_char(l, c) == 0);
    let j = join(a, ", "@);
    lemma_count_concat("UPDATE "@, table, c);
    lemma_count_concat("UPDATE "@ + table, " SET "@, c);
    lemma_count_concat("UPDATE "@ + table + " SET "@, j, c);
    lemma_count_concat("UPDATE "@ + table + " SET "@ + j, w, c);
    lemma_count_concat("UPDATE "@ + table + " SET "@ + j + w, l, c);
}

/// An insert holds exactly one placeholder per column.
pub proof fn lemma_insert_placeholders(table: Seq<char>, columns: Seq<Seq<char>>)
    requires
        !table.contains('?'),
        forall|i: int| 0 <= i < columns.len() ==> !(#[trigger] columns[i]).contains('?'),
    ensures
        count_char(insert_text(table, columns), '?') == columns.len(),
{
    reveal_strlit("INSERT INTO ");
    reveal_strlit(" (");
    reveal_strlit(", ");
    reveal_strlit(") VALUES (");
    reveal_strlit(")");
    reveal_strlit("?");
    let c = '?';
    lemma_count_absent("INSERT INTO "@, c);
    lemma_count_absent(" ("@, c);
    lemma_count_absent(") VALUES ("@, c);
    lemma_count_absent(")"@, c);
    lemma_count_absent(table, c);
    lemma_join_unmarked(columns, ", "@);
    let p = placeholders(columns.len());
    assert forall|i: int| 0 <= i < p.len() implies count_char(#[trigger] p[i], c) == 1 by {
        assert(p[i] == "?"@);
        assert("?"@.drop_last() =~= Seq::<char>::empty());
        assert(count_char(Seq::<char>::empty(), c) == 0);
    }
    lemma_marked_join(p, ", "@);
    let cols = join(columns, ", "@);
    let ph = join(p, ", "@);
    lemma_count_concat("INSERT INTO "@, table, c);
    lemma_count_concat("INSERT INTO "@ + table, " ("@, c);
    lemma_count_concat("INSERT INTO "@ + table + " ("@, cols, c);
    lemma_count_concat("INSERT INTO "@ + table + " ("@ + cols, ") VALUES ("@, c);
    lemma_count_concat("INSERT INTO "@ + table + " ("@ + cols + ") VALUES ("@, ph, c);
    lemma_count_concat("INSERT INTO "@ + table + " ("@ + cols + ") VALUES ("@ + ph, ")"@, c);
}

/// The values of a statement follow the order in which its predicates were
/// added: those of the single predicates first, then those of each group, the
/// groups in the order supplied and each group in its own order.
pub proof fn lemma_value_order(singles: Seq<Filter>, groups: Seq<Seq<Filter>>)
    ensures
        bound_values(singles + concat_groups(groups)) == bound_values(singles) + group_values(
            groups,
        ),
    decreases groups.len(),
{
    if groups.len() == 0 {
        assert(singles + concat_groups(groups) =~= singles);
        assert(bound_values(singles) + group_values(groups) =~= bound_values(singles));
    } else {
        lemma_value_order(singles, groups.drop_last());
        lemma_values_concat(singles + concat_groups(groups.drop_last()), groups.last());
        assert(singles + concat_groups(groups) =~= singles + concat_groups(groups.drop_last())
            + groups.last());
        assert(bound_values(singles) + group_values(groups) =~= bound_values(singles)
            + group_values(groups.drop_last()) + bound_values(groups.last()));
    }
}

/// The values of two runs of predicates, one after the other, are those of the
/// first run followed by those of the second.
pub proof fn lemma_values_concat(a: Seq<Filter>, b: Seq<Filter>)
    ensures
        bound_values(a + b) == bound_values(a) + bound_values(b),
    decreases b.len(),
{
    if b.len() == 0 {
        assert(a + b =~= a);
        assert(bound_values(a) + bound_values(b) =~= bound_values(a));
    } else {
        lemma_values_concat(a, b.drop_last());
        assert((a + b).drop_last() =~= a + b.drop_last());
        assert((a + b).last() == b.last());
        match b.last().value {
            Some(v) => {
                assert(bound_values(a) + bound_values(b) =~= (bound_values(a) + bound_values(
                    b.drop_last(),
                )).push(v));
            },
            None => {},
        }
    }
}

/// Building is deterministic: two builders that agree on kind, table, columns,
/// predicates and modifiers yield the same statement text and the same values
/// in the same order.
pub proof fn lemma_build_deterministic(a: QueryBuilder, b: QueryBuilder)
    requires
        a.query_type == b.query_type,
        a.table@ == b.table@,
        views(a.columns@) == views(b.columns@),
        a.predicates() == b.predicates(),
        a.limit == b.limit,
        a.allow_filtering == b.allow_filtering,
    ensures
        a.text() == b.text(),
        a.values() == b.values(),
{
}

} // verus!
