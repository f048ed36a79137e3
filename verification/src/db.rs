//! SQL text for the statements whose shape depends on their arguments.

use vstd::prelude::*;
use vstd::string::*;
use crate::text::{decimal, push_decimal};

verus! {

pub const EXPIRE_ALL_SQL: &'static str = "UPDATE events SET is_active = 0 WHERE source = ?1 AND is_active = 1";
pub const EXPIRE_EXCEPT_SQL: &'static str = "UPDATE events SET is_active = 0 WHERE source = ?1 AND is_active = 1 AND source_id NOT IN (";
pub const ACTIVE_EVENTS_SQL: &'static str = "SELECT id, source, source_id, event_type, severity, title, description, url,\n                onset_at, expires_at, detected_at,\n                latitude, longitude, area_desc, geometry_json,\n                metadata, is_active\n         FROM events WHERE is_active = 1";
pub const SOURCE_FILTER_SQL: &'static str = " AND source = ?";
pub const SEVERITY_FILTER_SQL: &'static str = " AND severity = ?";
pub const ORDER_LIMIT_SQL: &'static str = " ORDER BY onset_at DESC LIMIT ";

/// The SQL parameter placeholder `?k`.
pub open spec fn placeholder(k: nat) -> Seq<char> {
    seq!['?'] + decimal(k)
}

/// `count` consecutive placeholders starting at `?first`, separated by `, `.
pub open spec fn placeholder_list(first: nat, count: nat) -> Seq<char>
    decreases count,
{
    if count == 0 {
        seq![]
    } else if count == 1 {
        placeholder(first)
    } else {
        placeholder_list(first, (count - 1) as nat) + seq![',', ' '] + placeholder(
            (first + count - 1) as nat,
        )
    }
}

/// The `k`-th entry of a placeholder list: a `, ` separator unless it is the
/// first, then `?` and its number.
pub open spec fn placeholder_entry(first: nat) -> spec_fn(int) -> Seq<char> {
    |k: int|
        (if k == 0 {
            seq![]
        } else {
            seq![',', ' ']
        }) + seq!['?'] + decimal((first + k) as nat)
}

/// A placeholder list is `count` numbered placeholders, `?first` up to
/// `?(first + count - 1)` in increasing order, separated by `, `.
pub proof fn lemma_placeholder_list_entries(first: nat, count: nat)
    ensures
        placeholder_list(first, count) == Seq::new(count, placeholder_entry(first)).flatten(),
    decreases count,
{
    let f = placeholder_entry(first);
    if count == 0 {
        assert(Seq::new(0, f) =~= Seq::<Seq<char>>::empty());
    } else {
        let prev = Seq::new((count - 1) as nat, f);
        assert(Seq::new(count, f) =~= prev.push(f(count - 1)));
        prev.lemma_flatten_push(f(count - 1));
        if count == 1 {
            assert(prev =~= Seq::<Seq<char>>::empty());
            assert(f(0) =~= placeholder(first));
        } else {
            lemma_placeholder_list_entries(first, (count - 1) as nat);
            assert(f(count - 1) =~= seq![',', ' '] + placeholder((first + count - 1) as nat));
        }
    }
}

/// The statement that deactivates the events of a source (bound to `?1`)
/// except those whose source ids are bound to `?2` .. `?(n+1)`; with no
/// exceptions, every active event of the source.
pub open spec fn expire_sql(n: nat) -> Seq<char> {
    if n == 0 {
        EXPIRE_ALL_SQL@
    } else {
        EXPIRE_EXCEPT_SQL@ + placeholder_list(2, n) + seq![')']
    }
}

/// The query for active events, newest onset first: a source filter bound to
/// `?1` when requested, then a severity filter bound to the next placeholder
/// when requested, then the row limit.
pub open spec fn active_events_sql(limit: nat, by_source: bool, by_severity: bool) -> Seq<char> {
    ACTIVE_EVENTS_SQL@ + (if by_source {
        SOURCE_FILTER_SQL@ + decimal(1)
    } else {
        seq![]
    }) + (if by_severity {
        SEVERITY_FILTER_SQL@ + decimal(
            if by_source {
                2
            } else {
                1
            },
        )
    } else {
        seq![]
    }) + ORDER_LIMIT_SQL@ + decimal(limit)
}

/// The statement that marks events of a source inactive when their source ids
/// are not among the `active_count` ids of the current feed.
pub fn expire_events_sql(active_count: usize) -> (r: String)
    requires
        active_count < usize::MAX,
    ensures
        r@ == expire_sql(active_count as nat),
{
    if active_count == 0 {
        return String::from_str(EXPIRE_ALL_SQL);
    }
    let mut sql = String::from_str(EXPIRE_EXCEPT_SQL);
    let ghost head = sql@;
    let mut i: usize = 0;
    while i < active_count
        invariant
            i <= active_count < usize::MAX,
            sql@ == head + placeholder_list(2, i as nat),
        decreases active_count - i,
    {
        if i > 0 {
            crate::text::push_char(&mut sql, ',');
            crate::text::push_char(&mut sql, ' ');
        }
        crate::text::push_char(&mut sql, '?');
        push_decimal(&mut sql, (i + 2) as u64);
        assert(sql@ =~= head + placeholder_list(2, (i + 1) as nat));
        i = i + 1;
    }
    crate::text::push_char(&mut sql, ')');
    assert(sql@ =~= expire_sql(active_count as nat));
    sql
}

/// The query for recent active events, with optional source and severity
/// filters and a row limit.
pub fn active_events_query(limit: usize, source_filter: Option<&str>, severity_filter: Option<&str>) -> (r: String)
    ensures
        r@ == active_events_sql(limit as nat, source_filter is Some, severity_filter is Some),
{
    let mut sql = String::from_str(ACTIVE_EVENTS_SQL);
    let mut param_idx: u64 = 1;
    if source_filter.is_some() {
        sql.append(SOURCE_FILTER_SQL);
        push_decimal(&mut sql, param_idx);
        param_idx = param_idx + 1;
    }
    if severity_filter.is_some() {
        sql.append(SEVERITY_FILTER_SQL);
        push_decimal(&mut sql, param_idx);
    }
    sql.append(ORDER_LIMIT_SQL);
    push_decimal(&mut sql, limit as u64);
    assert(sql@ =~= active_events_sql(limit as nat, source_filter is Some, severity_filter is Some));
    sql
}

/// Whether an upsert inserted a new row: it changed a row and no row with the
/// same key existed before it.
pub fn upsert_was_insert(existed_before: bool, rows_changed: usize) -> (r: bool)
    ensures
        r == (!existed_before && rows_changed > 0),
{
    !existed_before && rows_changed > 0
}

} // verus!
