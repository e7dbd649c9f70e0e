//! The SELECT statement builder of `scooby`, seen through the parts of a
//! statement that the query compiler reads and extends.

use vstd::prelude::*;

use scooby::postgres::Orderable;
use scooby::postgres::Select;

verus! {

#[verifier::external_type_specification]
#[verifier::external_body]
pub struct ExSelect(Select);

/// Rendered text of everything before the FROM clause: the WITH clause,
/// `SELECT`, DISTINCT and the selected expressions.
pub uninterp spec fn select_prefix(s: Select) -> Seq<char>;

/// The rendered FROM items of a statement, in the order they were added.
pub uninterp spec fn select_from(s: Select) -> Seq<Seq<char>>;

/// The WHERE conditions of a statement, in the order they were added.
pub uninterp spec fn select_where(s: Select) -> Seq<Seq<char>>;

/// Rendered text of the GROUP BY and HAVING clauses, with their leading spaces.
pub uninterp spec fn select_grouping(s: Select) -> Seq<char>;

/// The rendered ORDER BY items of a statement, in the order they were added.
pub uninterp spec fn select_order_by(s: Select) -> Seq<Seq<char>>;

/// The LIMIT text of a statement, if one was set.
pub uninterp spec fn select_limit(s: Select) -> Option<Seq<char>>;

/// The OFFSET text of a statement, if one was set.
pub uninterp spec fn select_offset(s: Select) -> Option<Seq<char>>;

/// `items` separated by `sep`.
pub open spec fn joined(items: Seq<Seq<char>>, sep: Seq<char>) -> Seq<char>
    decreases items.len(),
{
    if items.len() == 0 {
        Seq::empty()
    } else if items.len() == 1 {
        items[0]
    } else {
        joined(items.drop_last(), sep) + sep + items.last()
    }
}

/// Rendered text of everything before the WHERE clause.
pub open spec fn select_head(s: Select) -> Seq<char> {
    select_prefix(s) + (if select_from(s).len() == 0 {
        Seq::empty()
    } else {
        " FROM "@ + joined(select_from(s), ", "@)
    })
}

/// The text of a statement, clause by clause.
pub open spec fn rendered(s: Select) -> Seq<char> {
    select_head(s)
    + (if select_where(s).len() == 0 {
        Seq::empty()
    } else {
        " WHERE "@ + joined(select_where(s), " AND "@)
    })
    + select_grouping(s)
    + (if select_order_by(s).len() == 0 {
        Seq::empty()
    } else {
        " ORDER BY "@ + joined(select_order_by(s), ", "@)
    })
    + match select_limit(s) {
        Some(l) => " LIMIT "@ + l,
        None => Seq::empty(),
    }
    + match select_offset(s) {
        Some(o) => " OFFSET "@ + o,
        None => Seq::empty(),
    }
}

/// Relies on `scooby::postgres::select` with one expression: a statement
/// `SELECT columns` with nothing else set.
#[verifier::external_body]
pub(crate) fn select_columns(columns: String) -> (r: Select)
    ensures
        select_prefix(r) == "SELECT "@ + columns@,
        select_from(r) == Seq::<Seq<char>>::empty(),
        select_grouping(r) == Seq::<char>::empty(),
        select_where(r) == Seq::<Seq<char>>::empty(),
        select_order_by(r) == Seq::<Seq<char>>::empty(),
        select_limit(r) == None::<Seq<char>>,
        select_offset(r) == None::<Seq<char>>,
{
    scooby::postgres::select(columns)
}

/// Relies on `Select::from` with one table name: appends it to the FROM list.
#[verifier::external_body]
pub(crate) fn from_table(q: Select, table: String) -> (r: Select)
    ensures
        select_prefix(r) == select_prefix(q),
        select_from(r) == select_from(q).push(table@),
        select_grouping(r) == select_grouping(q),
        select_where(r) == select_where(q),
        select_order_by(r) == select_order_by(q),
        select_limit(r) == select_limit(q),
        select_offset(r) == select_offset(q),
{
    q.from(table)
}

/// Relies on `Select::where_`: appends one condition to the WHERE list.
#[verifier::external_body]
pub(crate) fn add_where(q: Select, condition: String) -> (r: Select)
    ensures
        select_prefix(r) == select_prefix(q),
        select_from(r) == select_from(q),
        select_grouping(r) == select_grouping(q),
        select_where(r) == select_where(q).push(condition@),
        select_order_by(r) == select_order_by(q),
        select_limit(r) == select_limit(q),
        select_offset(r) == select_offset(q),
{
    q.where_(condition)
}

/// Relies on `Select::order_by` with `Orderable::asc`: appends `expression ASC`
/// to the ORDER BY list.
#[verifier::external_body]
pub(crate) fn add_order_asc(q: Select, expression: String) -> (r: Select)
    ensures
        select_prefix(r) == select_prefix(q),
        select_from(r) == select_from(q),
        select_grouping(r) == select_grouping(q),
        select_where(r) == select_where(q),
        select_order_by(r) == select_order_by(q).push(expression@ + " ASC"@),
        select_limit(r) == select_limit(q),
        select_offset(r) == select_offset(q),
{
    q.order_by(expression.asc())
}

/// Relies on `Select::order_by` with `Orderable::desc`: appends
/// `expression DESC` to the ORDER BY list.
#[verifier::external_body]
pub(crate) fn add_order_desc(q: Select, expression: String) -> (r: Select)
    ensures
        select_prefix(r) == select_prefix(q),
        select_from(r) == select_from(q),
        select_grouping(r) == select_grouping(q),
        select_where(r) == select_where(q),
        select_order_by(r) == select_order_by(q).push(expression@ + " DESC"@),
        select_limit(r) == select_limit(q),
        select_offset(r) == select_offset(q),
{
    q.order_by(expression.desc())
}

/// Relies on `Select::limit` with `Limit::from(String)`: sets the LIMIT text.
#[verifier::external_body]
pub(crate) fn set_limit(q: Select, limit: String) -> (r: Select)
    ensures
        select_prefix(r) == select_prefix(q),
        select_from(r) == select_from(q),
        select_grouping(r) == select_grouping(q),
        select_where(r) == select_where(q),
        select_order_by(r) == select_order_by(q),
        select_limit(r) == Some(limit@),
        select_offset(r) == select_offset(q),
{
    q.limit(limit)
}

/// Relies on `Select::offset` with `Offset::from(String)`: sets the OFFSET text.
#[verifier::external_body]
pub(crate) fn set_offset(q: Select, offset: String) -> (r: Select)
    ensures
        select_prefix(r) == select_prefix(q),
        select_from(r) == select_from(q),
        select_grouping(r) == select_grouping(q),
        select_where(r) == select_where(q),
        select_order_by(r) == select_order_by(q),
        select_limit(r) == select_limit(q),
        select_offset(r) == Some(offset@),
{
    q.offset(offset)
}

/// Relies on `Display for Select`: the statement's text, clause by clause.
#[verifier::external_body]
pub(crate) fn render(q: &Select) -> (r: String)
    ensures
        r@ == rendered(*q),
{
    q.to_string()
}

} // verus!
