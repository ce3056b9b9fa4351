//! The SQL query of an alert, built from its lookup description, such as
//! `average 10m of cuser,nice over idle,iowait`: the aggregate, the time
//! range, the columns summed as numerator and those summed as divisor.

use vstd::prelude::*;
use crate::text::{chars_of, push_char, occurs, contains_chars};

verus! {

/// Why the query of an alert cannot be built.
#[derive(Debug, PartialEq, Eq, Structural)]
pub enum QueryError {
    /// The lookup's first word names no aggregate the checker handles.
    UnhandledAggregation,
    /// The lookup gives no time range.
    NoTimeRange,
    /// The lookup gives no numerator columns.
    NoNumerator,
    /// The lookup gives no divisor columns.
    NoDivisor,
    /// The query would hold a statement that changes the database.
    ForbiddenStatement,
}

/// The pieces of `s` between the occurrences of `sep`, in order, as
/// `str::split` gives them: one more piece than there are separators.
pub open spec fn split_on(s: Seq<char>, sep: char) -> Seq<Seq<char>>
    decreases s.len(),
{
    if s.len() == 0 {
        seq![Seq::<char>::empty()]
    } else {
        let init = split_on(s.drop_last(), sep);
        if s.last() == sep {
            init.push(Seq::<char>::empty())
        } else {
            init.update(init.len() - 1, init.last().push(s.last()))
        }
    }
}

/// A split always yields at least one piece.
pub proof fn lemma_split_nonempty(s: Seq<char>, sep: char)
    ensures
        split_on(s, sep).len() >= 1,
    decreases s.len(),
{
    if s.len() > 0 {
        lemma_split_nonempty(s.drop_last(), sep);
    }
}

/// The pieces `pieces` put back together with `sep` between each two.
pub open spec fn join_with(pieces: Seq<Seq<char>>, sep: char) -> Seq<char>
    decreases pieces.len(),
{
    if pieces.len() == 0 {
        Seq::empty()
    } else if pieces.len() == 1 {
        pieces[0]
    } else {
        join_with(pieces.drop_last(), sep) + seq![sep] + pieces.last()
    }
}

/// Splitting loses nothing and keeps no separator: the pieces joined by the
/// separator give the text back, and no piece holds the separator.
pub proof fn lemma_split_joins_back(s: Seq<char>, sep: char)
    ensures
        join_with(split_on(s, sep), sep) == s,
        forall|k: int, i: int|
            0 <= k < split_on(s, sep).len() && 0 <= i < split_on(s, sep)[k].len() ==> #[trigger] split_on(
                s,
                sep,
            )[k][i] != sep,
    decreases s.len(),
{
    lemma_split_nonempty(s, sep);
    if s.len() > 0 {
        let init = split_on(s.drop_last(), sep);
        let c = s.last();
        lemma_split_joins_back(s.drop_last(), sep);
        lemma_split_nonempty(s.drop_last(), sep);
        let n = init.len();
        if c == sep {
            let r = init.push(Seq::<char>::empty());
            assert(r.drop_last() =~= init);
            assert(join_with(r, sep) == join_with(init, sep) + seq![sep] + Seq::<char>::empty());
            assert(join_with(r, sep) =~= s);
        } else {
            let r = init.update(n - 1, init.last().push(c));
            if n == 1 {
                assert(join_with(r, sep) == r[0]);
                assert(join_with(init, sep) == init[0]);
            } else {
                assert(r.drop_last() =~= init.drop_last());
                assert(join_with(r, sep) == join_with(init.drop_last(), sep) + seq![sep] + init.last().push(c));
                assert(join_with(init, sep) == join_with(init.drop_last(), sep) + seq![sep] + init.last());
            }
            assert(join_with(r, sep) =~= join_with(init, sep).push(c));
            assert(s.drop_last().push(c) =~= s);
            assert(join_with(r, sep) =~= s);
            assert forall|k: int, i: int| 0 <= k < r.len() && 0 <= i < r[k].len() implies #[trigger] r[k][i]
                != sep by {
                if k < n - 1 {
                    assert(r[k] == init[k]);
                } else if i < init.last().len() {
                    assert(r[k][i] == init[n - 1][i]);
                }
            }
        }
    }
}

/// The aggregate of one column, cast to a big integer.
pub open spec fn agg_term(agg: Seq<char>, col: Seq<char>) -> Seq<char> {
    agg + "("@ + col + ")::int8"@
}

/// The sum of the aggregates of the columns `cols`, joined by ` + `.
pub open spec fn agg_sum(agg: Seq<char>, cols: Seq<Seq<char>>) -> Seq<char>
    decreases cols.len(),
{
    if cols.len() == 0 {
        Seq::empty()
    } else if cols.len() == 1 {
        agg_term(agg, cols[0])
    } else {
        agg_sum(agg, cols.drop_last()) + " + "@ + agg_term(agg, cols.last())
    }
}

/// The selected values: the summed aggregates of the comma-separated
/// columns `num` as numerator, and of `div` as divisor.
pub open spec fn select_clause(agg: Seq<char>, num: Seq<char>, div: Seq<char>) -> Seq<char> {
    agg_sum(agg, split_on(num, ',')) + " as numerator, "@ + agg_sum(agg, split_on(div, ',')) + " as divisor"@
}

/// The extra condition of the query, if the alert has one.
pub open spec fn where_part(cond: Option<Seq<char>>) -> Seq<char> {
    match cond {
        None => Seq::empty(),
        Some(c) => " AND "@ + c,
    }
}

/// The query over `table` of the values `select`, bucketed by `time` over
/// the last `time`, for the host bound as the first parameter.
pub open spec fn query_text(time: Seq<char>, select: Seq<char>, table: Seq<char>, cond: Seq<char>) -> Seq<char> {
    "SELECT time_bucket('"@ + time + "', created_at) as time, "@ + select + " FROM "@ + table
        + " WHERE host_uuid=$1 AND created_at > now() at time zone 'utc' - INTERVAL '"@ + time + "' "@
        + cond + " GROUP BY time ORDER BY time DESC"@
}

/// The statements an alert's query may not hold.
pub open spec fn forbidden_statements() -> Seq<Seq<char>> {
    seq![
        "DELETE"@, "UPDATE"@, "INSERT"@, "CREATE"@, "ALTER"@, "DROP"@, "TRUNCATE"@, "GRANT"@,
        "REVOKE"@, "BEGIN"@, "COMMIT"@, "SAVEPOINT"@, "ROLLBACK"@,
    ]
}

/// `q` holds one of the forbidden statements.
pub open spec fn holds_forbidden(q: Seq<char>) -> bool {
    exists|k: int| 0 <= k < forbidden_statements().len() && occurs(q, #[trigger] forbidden_statements()[k])
}

/// The query of an alert whose lookup is `lookup`, over `table`, with the
/// extra condition `cond`, or why there is none. The lookup's words are
/// separated by single spaces: the aggregate (only `average` is handled),
/// the time range, a word that is skipped, the numerator columns, a word
/// that is skipped and the divisor columns.
pub open spec fn lookup_query(lookup: Seq<char>, table: Seq<char>, cond: Option<Seq<char>>) -> Result<Seq<char>, QueryError> {
    let words = split_on(lookup, ' ');
    if words[0] != "average"@ {
        Err(QueryError::UnhandledAggregation)
    } else if words.len() < 2 {
        Err(QueryError::NoTimeRange)
    } else if words.len() < 4 {
        Err(QueryError::NoNumerator)
    } else if words.len() < 6 {
        Err(QueryError::NoDivisor)
    } else {
        let q = query_text(words[1], select_clause("avg"@, words[3], words[5]), table, where_part(cond));
        if holds_forbidden(q) {
            Err(QueryError::ForbiddenStatement)
        } else {
            Ok(q)
        }
    }
}

/// The text of an alert's extra condition, if it has one.
pub open spec fn cond_text(cond: Option<String>) -> Option<Seq<char>> {
    match cond {
        None => None,
        Some(c) => Some(c@),
    }
}

/// Only four words of a lookup count: the aggregate, the time range, the
/// numerator columns and the divisor columns (words 1, 2, 4 and 6); the two
/// words between them and any words after the sixth play no part.
pub proof fn lemma_lookup_reads_four_words(l1: Seq<char>, l2: Seq<char>, table: Seq<char>, cond: Option<Seq<char>>)
    requires
        split_on(l1, ' ').len() >= 6,
        split_on(l2, ' ').len() >= 6,
        split_on(l1, ' ')[0] == split_on(l2, ' ')[0],
        split_on(l1, ' ')[1] == split_on(l2, ' ')[1],
        split_on(l1, ' ')[3] == split_on(l2, ' ')[3],
        split_on(l1, ' ')[5] == split_on(l2, ' ')[5],
    ensures
        lookup_query(l1, table, cond) == lookup_query(l2, table, cond),
{
}

/// A lookup whose first word is `average` and that has six words yields,
/// unless a forbidden statement shows up, a query over `table` whose time
/// bucket is its second word.
pub proof fn lemma_lookup_query_shape(lookup: Seq<char>, table: Seq<char>, cond: Option<Seq<char>>)
    requires
        split_on(lookup, ' ')[0] == "average"@,
        split_on(lookup, ' ').len() >= 6,
    ensures
        lookup_query(lookup, table, cond) is Err ==> lookup_query(lookup, table, cond)
            == Err::<Seq<char>, QueryError>(QueryError::ForbiddenStatement),
        lookup_query(lookup, table, cond) matches Ok(q) ==> q.take(20) == "SELECT time_bucket('"@
            && q.skip(20).take(split_on(lookup, ' ')[1].len() as int) == split_on(lookup, ' ')[1],
{
    let words = split_on(lookup, ' ');
    let q = query_text(words[1], select_clause("avg"@, words[3], words[5]), table, where_part(cond));
    reveal_strlit("SELECT time_bucket('");
    let head = "SELECT time_bucket('"@;
    assert(head.len() == 20);
    assert(q == head + (words[1] + ("', created_at) as time, "@ + select_clause("avg"@, words[3], words[5])
        + " FROM "@ + table + " WHERE host_uuid=$1 AND created_at > now() at time zone 'utc' - INTERVAL '"@
        + words[1] + "' "@ + where_part(cond) + " GROUP BY time ORDER BY time DESC"@))) by {
        assert(q =~= head + (words[1] + ("', created_at) as time, "@ + select_clause("avg"@, words[3], words[5])
            + " FROM "@ + table + " WHERE host_uuid=$1 AND created_at > now() at time zone 'utc' - INTERVAL '"@
            + words[1] + "' "@ + where_part(cond) + " GROUP BY time ORDER BY time DESC"@)));
    }
    assert(q.take(20) =~= head);
    assert(q.skip(20).take(words[1].len() as int) =~= words[1]);
}

/// A query that the lookup yields holds none of the statements that change
/// the database.
pub proof fn lemma_built_query_is_read_only(lookup: Seq<char>, table: Seq<char>, cond: Option<Seq<char>>, q: Seq<char>)
    requires
        lookup_query(lookup, table, cond) == Ok::<Seq<char>, QueryError>(q),
    ensures
        forall|k: int| 0 <= k < forbidden_statements().len() ==> !occurs(q, #[trigger] forbidden_statements()[k]),
{
}

/// The texts of a list of character lists.
pub open spec fn texts_of(v: Seq<Vec<char>>) -> Seq<Seq<char>> {
    v.map_values(|c: Vec<char>| c@)
}

/// Splits `s` at each `sep`.
fn split_chars(s: &Vec<char>, sep: char) -> (r: Vec<Vec<char>>)
    ensures
        texts_of(r@) == split_on(s@, sep),
{
    let mut pieces: Vec<Vec<char>> = Vec::new();
    let mut cur: Vec<char> = Vec::new();
    let mut i: usize = 0;
    proof {
        assert(s@.take(0) =~= Seq::<char>::empty());
        assert(texts_of(pieces@).push(cur@) =~= split_on(s@.take(0), sep));
    }
    while i < s.len()
        invariant
            i <= s@.len(),
            texts_of(pieces@).push(cur@) == split_on(s@.take(i as int), sep),
        decreases s@.len() - i,
    {
        let c = s[i];
        let ghost before = texts_of(pieces@);
        let ghost cur_before = cur@;
        proof {
            assert(s@.take(i as int + 1).drop_last() =~= s@.take(i as int));
            assert(s@.take(i as int + 1).last() == c);
        }
        if c == sep {
            pieces.push(cur);
            cur = Vec::new();
            proof {
                assert(texts_of(pieces@) =~= before.push(cur_before));
                assert(texts_of(pieces@).push(cur@) =~= split_on(s@.take(i as int + 1), sep));
            }
        } else {
            cur.push(c);
            proof {
                assert(texts_of(pieces@) =~= before);
                assert(texts_of(pieces@).push(cur@) =~= before.push(cur_before).update(
                    before.len() as int,
                    cur_before.push(c),
                ));
            }
        }
        i = i + 1;
    }
    proof {
        assert(s@.take(s@.len() as int) =~= s@);
    }
    let ghost before = texts_of(pieces@);
    pieces.push(cur);
    proof {
        assert(texts_of(pieces@) =~= before.push(cur@));
    }
    pieces
}

/// Appends the characters `cs` to `out`.
fn push_chars(out: &mut String, cs: &Vec<char>)
    ensures
        final(out)@ == old(out)@ + cs@,
{
    let mut i: usize = 0;
    while i < cs.len()
        invariant
            i <= cs@.len(),
            out@ == old(out)@ + cs@.take(i as int),
        decreases cs@.len() - i,
    {
        push_char(out, cs[i]);
        i = i + 1;
        proof {
            assert(out@ =~= old(out)@ + cs@.take(i as int));
        }
    }
    proof {
        assert(cs@.take(cs@.len() as int) =~= cs@);
    }
}

/// Appends the sum of the aggregates `agg` of the comma-separated columns
/// `cols` to `out`.
fn push_agg_sum(out: &mut String, agg: &str, cols: &Vec<char>)
    ensures
        final(out)@ == old(out)@ + agg_sum(agg@, split_on(cols@, ',')),
{
    let pieces = split_chars(cols, ',');
    let ghost all = split_on(cols@, ',');
    let mut i: usize = 0;
    proof {
        assert(all.take(0) =~= Seq::<Seq<char>>::empty());
        assert(old(out)@ + Seq::<char>::empty() =~= old(out)@);
    }
    while i < pieces.len()
        invariant
            texts_of(pieces@) == all,
            i <= pieces@.len(),
            out@ == old(out)@ + agg_sum(agg@, all.take(i as int)),
        decreases pieces@.len() - i,
    {
        let ghost so_far = out@;
        assert(all[i as int] == pieces@[i as int]@);
        assert(all.take(i as int + 1).drop_last() =~= all.take(i as int));
        assert(all.take(i as int + 1).last() == all[i as int]);
        if i > 0 {
            out.append(" + ");
        }
        out.append(agg);
        out.append("(");
        push_chars(out, &pieces[i]);
        out.append(")::int8");
        proof {
            if i == 0 {
                assert(all.take(1) =~= seq![all[0]]);
                assert(out@ =~= old(out)@ + agg_sum(agg@, all.take(1)));
            } else {
                assert(out@ =~= old(out)@ + agg_sum(agg@, all.take(i as int + 1)));
            }
        }
        i = i + 1;
    }
    proof {
        assert(all.take(all.len() as int) =~= all);
    }
}

/// The characters `a` and `b` are the same text.
fn same_chars(a: &Vec<char>, b: &Vec<char>) -> (r: bool)
    ensures
        r == (a@ == b@),
{
    if a.len() != b.len() {
        return false;
    }
    let mut i: usize = 0;
    while i < a.len()
        invariant
            a@.len() == b@.len(),
            i <= a@.len(),
            forall|j: int| 0 <= j < i ==> a@[j] == b@[j],
        decreases a@.len() - i,
    {
        if a[i] != b[i] {
            return false;
        }
        i = i + 1;
    }
    proof {
        assert(a@ =~= b@);
    }
    true
}

/// The statement at position `k` of the forbidden statements.
fn forbidden_statement(k: usize) -> (r: &'static str)
    requires
        k < forbidden_statements().len(),
    ensures
        r@ == forbidden_statements()[k as int],
{
    match k {
        0 => "DELETE",
        1 => "UPDATE",
        2 => "INSERT",
        3 => "CREATE",
        4 => "ALTER",
        5 => "DROP",
        6 => "TRUNCATE",
        7 => "GRANT",
        8 => "REVOKE",
        9 => "BEGIN",
        10 => "COMMIT",
        11 => "SAVEPOINT",
        _ => "ROLLBACK",
    }
}

/// The query of an alert whose lookup is `lookup`, over `table`, with the
/// extra condition `where_clause`, or why it cannot be built.
pub fn build_alert_query(lookup: &str, table: &str, where_clause: &Option<String>) -> (r: Result<String, QueryError>)
    ensures
        r matches Ok(q) ==> lookup_query(lookup@, table@, cond_text(*where_clause)) == Ok::<Seq<char>, QueryError>(q@),
        r matches Err(e) ==> lookup_query(lookup@, table@, cond_text(*where_clause)) == Err::<Seq<char>, QueryError>(e),
{
    let cs = chars_of(lookup);
    let words = split_chars(&cs, ' ');
    let ghost ws = split_on(lookup@, ' ');
    proof {
        lemma_split_nonempty(lookup@, ' ');
        assert(ws[0] == words@[0]@);
    }
    let average = chars_of("average");
    if !same_chars(&words[0], &average) {
        return Err(QueryError::UnhandledAggregation);
    }
    if words.len() < 2 {
        return Err(QueryError::NoTimeRange);
    }
    if words.len() < 4 {
        return Err(QueryError::NoNumerator);
    }
    if words.len() < 6 {
        return Err(QueryError::NoDivisor);
    }
    proof {
        assert(ws[1] == words@[1]@);
        assert(ws[3] == words@[3]@);
        assert(ws[5] == words@[5]@);
    }
    let mut q = String::new();
    q.append("SELECT time_bucket('");
    push_chars(&mut q, &words[1]);
    q.append("', created_at) as time, ");
    push_agg_sum(&mut q, "avg", &words[3]);
    q.append(" as numerator, ");
    push_agg_sum(&mut q, "avg", &words[5]);
    q.append(" as divisor");
    q.append(" FROM ");
    q.append(table);
    q.append(" WHERE host_uuid=$1 AND created_at > now() at time zone 'utc' - INTERVAL '");
    push_chars(&mut q, &words[1]);
    q.append("' ");
    match where_clause {
        Some(c) => {
            q.append(" AND ");
            q.append(c.as_str());
        },
        None => {},
    }
    q.append(" GROUP BY time ORDER BY time DESC");
    let ghost expected = query_text(
        ws[1],
        select_clause("avg"@, ws[3], ws[5]),
        table@,
        where_part(cond_text(*where_clause)),
    );
    proof {
        assert(q@ =~= expected);
    }
    let qs = chars_of(q.as_str());
    let mut k: usize = 0;
    while k < 13
        invariant
            qs@ == expected,
            holds_forbidden(expected) ==> lookup_query(lookup@, table@, cond_text(*where_clause))
                == Err::<Seq<char>, QueryError>(QueryError::ForbiddenStatement),
            forbidden_statements().len() == 13,
            k <= 13,
            forall|j: int| 0 <= j < k ==> !occurs(expected, #[trigger] forbidden_statements()[j]),
        decreases 13 - k,
    {
        let stmt = chars_of(forbidden_statement(k));
        if contains_chars(&qs, &stmt) {
            proof {
                assert(occurs(expected, forbidden_statements()[k as int]));
                assert(holds_forbidden(expected));
            }
            return Err(QueryError::ForbiddenStatement);
        }
        k = k + 1;
    }
    Ok(q)
}

} // verus!
