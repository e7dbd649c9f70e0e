//! Laws of the query compiler, stated over the spec functions that its
//! contracts use and proved.

use vstd::prelude::*;

use scooby::postgres::Select;

use crate::query_param::{
    between_clause, between_msg, bool_msg, compile_orders, effective_limit, filter_step,
    offset_of, op_clause, order_item, orders_upto, status_msg, BindView, Iterable, QueryParams,
    SlotView, Step, WhereOpNumberDate, MAX_LIMIT,
};
use crate::sql::rendered;

verus! {

/// Without a requested page size, the page size is the caller's default,
/// for every default within `MAX_LIMIT`.
pub proof fn lemma_default_limit(default_limit: u64)
    requires
        default_limit <= MAX_LIMIT,
    ensures
        effective_limit(None, default_limit) == default_limit,
{
}

/// Every requested page size above `MAX_LIMIT` becomes exactly `MAX_LIMIT`.
pub proof fn lemma_limit_clamped(limit: u64, default_limit: u64)
    requires
        limit > MAX_LIMIT,
    ensures
        effective_limit(Some(limit), default_limit) == MAX_LIMIT,
{
}

/// On the first page, requested or implied, the offset is zero, so no
/// OFFSET is emitted.
pub proof fn lemma_first_page_no_offset(limit: u64)
    ensures
        offset_of(limit, None) == 0,
        offset_of(limit, Some(1)) == 0,
{
    assert(limit * 0 == 0) by (nonlinear_arith);
}

/// ORDER BY items follow declaration order: the items of a set declared as
/// `a` then `b` are those of `a` followed by those of `b`, and a single
/// column gives its own item if it has a direction and nothing otherwise.
pub proof fn lemma_orders_follow_declaration(
    alias: Seq<char>,
    a: Seq<(Seq<char>, SlotView)>,
    b: Seq<(Seq<char>, SlotView)>,
)
    ensures
        compile_orders(alias, a + b) == compile_orders(alias, a) + compile_orders(alias, b),
        b.len() == 1 ==> compile_orders(alias, b) == match order_item(alias, b[0].0, b[0].1) {
            Some(o) => seq![o],
            None => Seq::<Seq<char>>::empty(),
        },
    decreases b.len(),
{
    if b.len() == 1 {
        assert(orders_upto(alias, b, 0) =~= Seq::<Seq<char>>::empty());
        assert(compile_orders(alias, b) =~= match order_item(alias, b[0].0, b[0].1) {
            Some(o) => seq![o],
            None => Seq::<Seq<char>>::empty(),
        });
    }
    if b.len() == 0 {
        assert(a + b =~= a);
        assert(compile_orders(alias, a) + compile_orders(alias, b) =~= compile_orders(alias, a));
    } else {
        let b0 = b.drop_last();
        lemma_orders_follow_declaration(alias, a, b0);
        lemma_orders_prefix(alias, a + b, (a + b).len() as nat);
        lemma_orders_prefix(alias, b, b.len() as nat);
        assert((a + b).drop_last() =~= a + b0);
        assert(orders_upto(alias, a + b, ((a + b).len() - 1) as nat) == compile_orders(alias, a + b0)) by {
            lemma_orders_prefix(alias, a + b, ((a + b).len() - 1) as nat);
        }
        assert(orders_upto(alias, b, (b.len() - 1) as nat) == compile_orders(alias, b0)) by {
            lemma_orders_prefix(alias, b, (b.len() - 1) as nat);
        }
        assert((a + b)[(a + b).len() - 1] == b[b.len() - 1]);
        match order_item(alias, b[b.len() - 1].0, b[b.len() - 1].1) {
            Some(o) => {
                assert(compile_orders(alias, a) + compile_orders(alias, b0).push(o) =~= (
                compile_orders(alias, a) + compile_orders(alias, b0)).push(o));
            },
            None => {},
        }
    }
}

/// The items of the first `n` columns depend on those columns alone.
pub proof fn lemma_orders_prefix(alias: Seq<char>, cols: Seq<(Seq<char>, SlotView)>, n: nat)
    requires
        n <= cols.len(),
    ensures
        orders_upto(alias, cols, n) == compile_orders(alias, cols.subrange(0, n as int)),
    decreases n,
{
    let sub = cols.subrange(0, n as int);
    if n > 0 {
        lemma_orders_prefix(alias, cols, (n - 1) as nat);
        lemma_orders_prefix(alias, sub, (n - 1) as nat);
        assert(sub.subrange(0, n - 1) =~= cols.subrange(0, n - 1));
    }
}

/// A BETWEEN filter of the ordered family with exactly two values compiles to
/// one `BETWEEN $pos AND $pos+1` condition binding both values in order; with
/// any other number of values it fails, naming the column.
pub proof fn lemma_between(alias: Seq<char>, name: Seq<char>, slot: SlotView, pos: nat)
    ensures
        slot matches SlotView::Number(Some((v, WhereOpNumberDate::BETWEEN))) ==> filter_step(
            alias,
            name,
            slot,
            pos,
        ) == if v.len() == 2 {
            Step::Emit(between_clause(alias + name, pos), seq![BindView::Int(v[0]), BindView::Int(v[1])])
        } else {
            Step::Fail(between_msg(name))
        },
        slot matches SlotView::Date(Some((v, WhereOpNumberDate::BETWEEN))) ==> filter_step(
            alias,
            name,
            slot,
            pos,
        ) == if v.len() == 2 {
            Step::Emit(
                between_clause(alias + name, pos),
                seq![BindView::Date(v[0]), BindView::Date(v[1])],
            )
        } else {
            Step::Fail(between_msg(name))
        },
{
}

/// A discrete filter fails unless it has exactly one value; with one value it
/// compiles to a single `<token> $pos` condition binding that value.
pub proof fn lemma_discrete(alias: Seq<char>, name: Seq<char>, slot: SlotView, pos: nat)
    ensures
        slot matches SlotView::Bool(Some((v, op))) ==> filter_step(alias, name, slot, pos) == if v.len()
            == 1 {
            Step::Emit(op_clause(alias + name, op.token_spec(), pos), seq![BindView::Bool(v[0])])
        } else {
            Step::Fail(bool_msg(name))
        },
        slot matches SlotView::Status(Some((v, op))) ==> filter_step(alias, name, slot, pos) == if v.len()
            == 1 {
            Step::Emit(op_clause(alias + name, op.token_spec(), pos), seq![BindView::Status(v[0])])
        } else {
            Step::Fail(status_msg(name))
        },
{
}

/// Compiling the same envelope twice onto the same statement gives the same
/// statement text, the same bound values and the same next bind position:
/// any two results that `compile` may return for it are equal.
pub proof fn lemma_compile_idempotent<F: Iterable, O: Iterable, M>(
    params: QueryParams<F, O, M>,
    query: Select,
    alias: Seq<char>,
    default_limit: u64,
    text1: Seq<char>,
    binds1: Seq<BindView>,
    next1: nat,
    text2: Seq<char>,
    binds2: Seq<BindView>,
    next2: nat,
)
    requires
        params.compiles_to(query, alias, default_limit, text1, binds1, next1),
        params.compiles_to(query, alias, default_limit, text2, binds2, next2),
    ensures
        text1 == text2,
        binds1 == binds2,
        next1 == next2,
{
    let q1 = choose|q: Select|
        #[trigger] params.compiled_as(query, alias, default_limit, q, binds1, next1) && text1
            == rendered(q);
    let q2 = choose|q: Select|
        #[trigger] params.compiled_as(query, alias, default_limit, q, binds2, next2) && text2
            == rendered(q);
}

} // verus!
