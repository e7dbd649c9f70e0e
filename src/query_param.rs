//! Query envelope, operator vocabulary, column descriptor sets, and the
//! compiler that turns an envelope into a parameterized statement.
//!
//! Filters are always combined with AND: the envelope's `filter_type` is
//! carried but not consulted, and OR-combination is unsupported.

use vstd::prelude::*;

use scooby::postgres::Select;

use crate::decimal::{dec, decimal};
use crate::error::{AppError, BAD_REQUEST};
use crate::sql::{
    add_order_asc, add_order_desc, add_where, select_from, select_grouping, select_limit, select_prefix,
    render, rendered, select_offset, select_order_by, select_where, set_limit, set_offset,
};
use crate::Status;

verus! {

/// Largest page size the compiler emits.
pub const MAX_LIMIT: u64 = 100;

/// Sort direction of an orderable column.
#[derive(Debug, Clone, Copy, PartialEq, Eq, Structural)]
pub enum Order {
    DESC,
    ASC,
}

/// How filters are to be combined. Carried by the envelope, not consulted:
/// filters are always combined with AND.
#[derive(Debug, Clone, Copy, PartialEq, Eq, Structural)]
pub enum FilterType {
    AND,
    OR,
}

/// Operators of the text family.
#[derive(Debug, Clone, Copy, PartialEq, Eq, Structural)]
pub enum WhereOp {
    EQ,
    NEQ,
    LIKE,
    IN,
    NIN,
}

/// Operators of the ordered (number and date) family.
#[derive(Debug, Clone, Copy, PartialEq, Eq, Structural)]
pub enum WhereOpNumberDate {
    EQ,
    NEQ,
    LT,
    LTE,
    GT,
    GTE,
    IN,
    NIN,
    BETWEEN,
}

/// Operators of the discrete (enum and bool) family.
#[derive(Debug, Clone, Copy, PartialEq, Eq, Structural)]
pub enum WhereOpEnum {
    EQ,
    NEQ,
    IN,
}

impl WhereOp {
    pub open spec fn token_spec(&self) -> Seq<char> {
        match self {
            WhereOp::EQ => "="@,
            WhereOp::NEQ => "!="@,
            WhereOp::LIKE => "LIKE"@,
            WhereOp::IN => "IN"@,
            WhereOp::NIN => "NOT IN"@,
        }
    }

    /// The SQL operator token.
    pub fn token(&self) -> (r: &'static str)
        ensures
            r@ == self.token_spec(),
    {
        match self {
            WhereOp::EQ => "=",
            WhereOp::NEQ => "!=",
            WhereOp::LIKE => "LIKE",
            WhereOp::IN => "IN",
            WhereOp::NIN => "NOT IN",
        }
    }
}

impl WhereOpNumberDate {
    pub open spec fn token_spec(&self) -> Seq<char> {
        match self {
            WhereOpNumberDate::EQ => "="@,
            WhereOpNumberDate::NEQ => "!="@,
            WhereOpNumberDate::LT => "<"@,
            WhereOpNumberDate::LTE => "<="@,
            WhereOpNumberDate::GT => ">"@,
            WhereOpNumberDate::GTE => ">="@,
            WhereOpNumberDate::IN => "IN"@,
            WhereOpNumberDate::NIN => "NOT IN"@,
            WhereOpNumberDate::BETWEEN => "BETWEEN"@,
        }
    }

    /// The SQL operator token.
    pub fn token(&self) -> (r: &'static str)
        ensures
            r@ == self.token_spec(),
    {
        match self {
            WhereOpNumberDate::EQ => "=",
            WhereOpNumberDate::NEQ => "!=",
            WhereOpNumberDate::LT => "<",
            WhereOpNumberDate::LTE => "<=",
            WhereOpNumberDate::GT => ">",
            WhereOpNumberDate::GTE => ">=",
            WhereOpNumberDate::IN => "IN",
            WhereOpNumberDate::NIN => "NOT IN",
            WhereOpNumberDate::BETWEEN => "BETWEEN",
        }
    }
}

impl WhereOpEnum {
    pub open spec fn token_spec(&self) -> Seq<char> {
        match self {
            WhereOpEnum::EQ => "="@,
            WhereOpEnum::NEQ => "!="@,
            WhereOpEnum::IN => "IN"@,
        }
    }

    /// The SQL operator token.
    pub fn token(&self) -> (r: &'static str)
        ensures
            r@ == self.token_spec(),
    {
        match self {
            WhereOpEnum::EQ => "=",
            WhereOpEnum::NEQ => "!=",
            WhereOpEnum::IN => "IN",
        }
    }
}

/// A calendar date, as year, month and day.
#[derive(Debug, Clone, Copy, PartialEq, Eq, Structural)]
pub struct Date {
    pub year: i32,
    pub month: u32,
    pub day: u32,
}

/// Whether `year` is a leap year of the proleptic Gregorian calendar.
pub open spec fn is_leap_year(year: int) -> bool {
    (year % 4 == 0 && year % 100 != 0) || year % 400 == 0
}

/// The number of days of `month` (1 to 12) in `year`.
pub open spec fn days_in_month(year: int, month: int) -> int {
    if month == 2 {
        if is_leap_year(year) { 29 } else { 28 }
    } else if month == 4 || month == 6 || month == 9 || month == 11 {
        30
    } else {
        31
    }
}

impl Date {
    /// The date exists: a month from 1 to 12 and a day within that month.
    pub open spec fn wf(&self) -> bool {
        &&& 1 <= self.month <= 12
        &&& 1 <= self.day <= days_in_month(self.year as int, self.month as int)
    }

    /// Whether the date exists.
    pub fn is_valid(&self) -> (r: bool)
        ensures
            r == self.wf(),
    {
        if self.month < 1 || self.month > 12 || self.day < 1 {
            return false;
        }
        let leap = (self.year % 4 == 0 && self.year % 100 != 0) || self.year % 400 == 0;
        let days: u32 = if self.month == 2 {
            if leap { 29 } else { 28 }
        } else if self.month == 4 || self.month == 6 || self.month == 9 || self.month == 11 {
            30
        } else {
            31
        };
        self.day <= days
    }

    /// The date `year-month-day`, if it exists.
    pub fn new(year: i32, month: u32, day: u32) -> (r: Option<Date>)
        ensures
            match r {
                Some(d) => d.wf() && d.year == year && d.month == month && d.day == day,
                None => !(Date { year, month, day }).wf(),
            },
    {
        let d = Date { year, month, day };
        if d.is_valid() {
            Some(d)
        } else {
            None
        }
    }
}

/// A filter on one column: the literal values and the operator.
#[derive(Debug)]
pub struct Filter<T, Op = WhereOp> {
    pub val: Vec<T>,
    pub op: Op,
}

impl<T: Copy, Op: Copy> Filter<T, Op> {
    /// A copy of a filter over plain values.
    pub fn copied(&self) -> (r: Self)
        ensures
            r.val@ == self.val@,
            r.op == self.op,
    {
        Filter { val: copy_values(&self.val), op: self.op }
    }
}

impl<Op: Copy> Filter<String, Op> {
    /// A copy of a filter over texts.
    pub fn cloned_texts(&self) -> (r: Self)
        ensures
            texts(r.val@) == texts(self.val@),
            r.op == self.op,
    {
        Filter { val: copy_texts(&self.val), op: self.op }
    }
}

pub type OrderBy = Option<Order>;
pub type StringFilter = Option<Filter<String>>;
pub type DateFilter = Option<Filter<Date, WhereOpNumberDate>>;
pub type NumberFilter = Option<Filter<i32, WhereOpNumberDate>>;
pub type BoolFilter = Option<Filter<bool, WhereOpEnum>>;
pub type EnumFilter = Option<Filter<Status, WhereOpEnum>>;

/// The slot of one declared column: a filter of one family, or a sort
/// direction.
#[derive(Debug)]
pub enum Slot {
    Text(StringFilter),
    Number(NumberFilter),
    Date(DateFilter),
    Bool(BoolFilter),
    Status(EnumFilter),
    Order(OrderBy),
}

/// What a slot holds, with texts as character sequences.
pub enum SlotView {
    Text(Option<(Seq<Seq<char>>, WhereOp)>),
    Number(Option<(Seq<i32>, WhereOpNumberDate)>),
    Date(Option<(Seq<Date>, WhereOpNumberDate)>),
    Bool(Option<(Seq<bool>, WhereOpEnum)>),
    Status(Option<(Seq<Status>, WhereOpEnum)>),
    Order(Option<Order>),
}

/// The texts of a sequence of strings.
pub open spec fn texts(s: Seq<String>) -> Seq<Seq<char>> {
    s.map_values(|x: String| x@)
}

impl View for Slot {
    type V = SlotView;

    open spec fn view(&self) -> SlotView {
        match self {
            Slot::Text(f) => SlotView::Text(
                match f {
                    Some(f) => Some((texts(f.val@), f.op)),
                    None => None,
                },
            ),
            Slot::Number(f) => SlotView::Number(
                match f {
                    Some(f) => Some((f.val@, f.op)),
                    None => None,
                },
            ),
            Slot::Date(f) => SlotView::Date(
                match f {
                    Some(f) => Some((f.val@, f.op)),
                    None => None,
                },
            ),
            Slot::Bool(f) => SlotView::Bool(
                match f {
                    Some(f) => Some((f.val@, f.op)),
                    None => None,
                },
            ),
            Slot::Status(f) => SlotView::Status(
                match f {
                    Some(f) => Some((f.val@, f.op)),
                    None => None,
                },
            ),
            Slot::Order(o) => SlotView::Order(*o),
        }
    }
}

/// One declared column of a descriptor set: its name and its slot.
#[derive(Debug)]
pub struct Column {
    pub name: String,
    pub slot: Slot,
}

impl View for Column {
    type V = (Seq<char>, SlotView);

    open spec fn view(&self) -> (Seq<char>, SlotView) {
        (self.name@, self.slot@)
    }
}

/// The views of a sequence of columns.
pub open spec fn column_views(s: Seq<Column>) -> Seq<(Seq<char>, SlotView)> {
    s.map_values(|c: Column| c@)
}

/// A column descriptor set: enumerates its columns, in declaration order.
pub trait Iterable {
    /// The columns, in declaration order.
    spec fn columns(&self) -> Seq<(Seq<char>, SlotView)>;

    fn iter(&self) -> (r: Vec<Column>)
        ensures
            column_views(r@) == self.columns(),
    ;
}

/// A value bound to one placeholder.
#[derive(Debug, Clone, PartialEq)]
pub enum BindValue {
    Text(String),
    TextList(Vec<String>),
    Int(i32),
    IntList(Vec<i32>),
    Date(Date),
    DateList(Vec<Date>),
    Bool(bool),
    Status(Status),
}

/// What a bound value holds, with texts as character sequences.
pub enum BindView {
    Text(Seq<char>),
    TextList(Seq<Seq<char>>),
    Int(i32),
    IntList(Seq<i32>),
    Date(Date),
    DateList(Seq<Date>),
    Bool(bool),
    Status(Status),
}

impl View for BindValue {
    type V = BindView;

    open spec fn view(&self) -> BindView {
        match self {
            BindValue::Text(s) => BindView::Text(s@),
            BindValue::TextList(v) => BindView::TextList(texts(v@)),
            BindValue::Int(i) => BindView::Int(*i),
            BindValue::IntList(v) => BindView::IntList(v@),
            BindValue::Date(d) => BindView::Date(*d),
            BindValue::DateList(v) => BindView::DateList(v@),
            BindValue::Bool(b) => BindView::Bool(*b),
            BindValue::Status(s) => BindView::Status(*s),
        }
    }
}

/// The views of a sequence of bound values.
pub open spec fn bind_views(s: Seq<BindValue>) -> Seq<BindView> {
    s.map_values(|b: BindValue| b@)
}

/// Outcome of compiling one column of a filter set.
pub enum Step {
    /// Nothing to emit: the slot is empty or holds no filter.
    Skip,
    /// The filter is malformed; the message names the column.
    Fail(Seq<char>),
    /// One WHERE condition and the values bound to its placeholders.
    Emit(Seq<char>, Seq<BindView>),
}

/// The placeholder of bind position `pos`.
pub open spec fn placeholder(pos: nat) -> Seq<char> {
    "$"@ + dec(pos)
}

pub open spec fn invalid_msg(name: Seq<char>) -> Seq<char> {
    "Invalid parameter for "@ + name
}

pub open spec fn between_msg(name: Seq<char>) -> Seq<char> {
    "Invalid parameter for "@ + name + ". from and to must be set"@
}

pub open spec fn bool_msg(name: Seq<char>) -> Seq<char> {
    "Invalid parameter for "@ + name + ". pass either true or false"@
}

pub open spec fn status_msg(name: Seq<char>) -> Seq<char> {
    "Invalid parameter for "@ + name + ". Pass either Active or Inactive"@
}

/// `col = ANY($pos)`: membership in the bound array.
pub open spec fn any_clause(col: Seq<char>, pos: nat) -> Seq<char> {
    col + " = ANY("@ + placeholder(pos) + ")"@
}

/// `col != ALL($pos)`: non-membership in the bound array.
pub open spec fn all_clause(col: Seq<char>, pos: nat) -> Seq<char> {
    col + " != ALL("@ + placeholder(pos) + ")"@
}

/// `col <token> $pos`.
pub open spec fn op_clause(col: Seq<char>, token: Seq<char>, pos: nat) -> Seq<char> {
    col + " "@ + token + " "@ + placeholder(pos)
}

/// `col BETWEEN $pos AND $pos+1`.
pub open spec fn between_clause(col: Seq<char>, pos: nat) -> Seq<char> {
    col + " BETWEEN "@ + placeholder(pos) + " AND "@ + placeholder(pos + 1)
}

/// A filter of the ordered family with `n` values; `list` binds them all,
/// `first` and `second` bind the first two.
pub open spec fn ordered_step(
    col: Seq<char>,
    name: Seq<char>,
    n: nat,
    op: WhereOpNumberDate,
    pos: nat,
    list: BindView,
    first: BindView,
    second: BindView,
) -> Step {
    if op == WhereOpNumberDate::BETWEEN {
        if n == 2 {
            Step::Emit(between_clause(col, pos), seq![first, second])
        } else {
            Step::Fail(between_msg(name))
        }
    } else if n == 0 {
        Step::Fail(invalid_msg(name))
    } else if op == WhereOpNumberDate::IN {
        Step::Emit(any_clause(col, pos), seq![list])
    } else if op == WhereOpNumberDate::NIN {
        Step::Emit(all_clause(col, pos), seq![list])
    } else {
        Step::Emit(op_clause(col, op.token_spec(), pos), seq![first])
    }
}

/// What the column `name` with slot `slot` compiles to in a filter set,
/// with `pos` the next bind position and `alias` the column prefix.
pub open spec fn filter_step(alias: Seq<char>, name: Seq<char>, slot: SlotView, pos: nat) -> Step {
    let col = alias + name;
    match slot {
        SlotView::Text(Some((v, op))) => {
            if v.len() == 0 {
                Step::Fail(invalid_msg(name))
            } else if op == WhereOp::IN {
                Step::Emit(any_clause(col, pos), seq![BindView::TextList(v)])
            } else if op == WhereOp::NIN {
                Step::Emit(all_clause(col, pos), seq![BindView::TextList(v)])
            } else if op == WhereOp::LIKE {
                Step::Emit(op_clause(col, op.token_spec(), pos), seq![BindView::Text(v[0] + "%"@)])
            } else {
                Step::Emit(op_clause(col, op.token_spec(), pos), seq![BindView::Text(v[0])])
            }
        },
        SlotView::Number(Some((v, op))) => ordered_step(
            col,
            name,
            v.len(),
            op,
            pos,
            BindView::IntList(v),
            BindView::Int(v[0]),
            BindView::Int(v[1]),
        ),
        SlotView::Date(Some((v, op))) => ordered_step(
            col,
            name,
            v.len(),
            op,
            pos,
            BindView::DateList(v),
            BindView::Date(v[0]),
            BindView::Date(v[1]),
        ),
        SlotView::Bool(Some((v, op))) => {
            if v.len() == 1 {
                Step::Emit(op_clause(col, op.token_spec(), pos), seq![BindView::Bool(v[0])])
            } else {
                Step::Fail(bool_msg(name))
            }
        },
        SlotView::Status(Some((v, op))) => {
            if v.len() == 1 {
                Step::Emit(op_clause(col, op.token_spec(), pos), seq![BindView::Status(v[0])])
            } else {
                Step::Fail(status_msg(name))
            }
        },
        _ => Step::Skip,
    }
}

/// Renders `$pos`.
fn placeholder_text(pos: u64) -> (r: String)
    ensures
        r@ == placeholder(pos as nat),
{
    String::from_str("$").concat(decimal(pos).as_str())
}

fn copy_values<T: Copy>(v: &Vec<T>) -> (r: Vec<T>)
    ensures
        r@ == v@,
{
    let mut r: Vec<T> = Vec::new();
    let mut i: usize = 0;
    while i < v.len()
        invariant
            i <= v.len(),
            r@ == v@.subrange(0, i as int),
        decreases v.len() - i,
    {
        r.push(v[i]);
        i = i + 1;
    }
    assert(r@ =~= v@);
    r
}

fn copy_texts(v: &Vec<String>) -> (r: Vec<String>)
    ensures
        texts(r@) == texts(v@),
{
    let mut r: Vec<String> = Vec::new();
    let mut i: usize = 0;
    while i < v.len()
        invariant
            i <= v.len(),
            r@ == v@.subrange(0, i as int),
        decreases v.len() - i,
    {
        r.push(v[i].clone());
        i = i + 1;
    }
    assert(r@ =~= v@);
    r
}

fn message(prefix: &str, name: &String, suffix: &str) -> (r: String)
    ensures
        r@ == prefix@ + name@ + suffix@,
{
    String::from_str(prefix).concat(name.as_str()).concat(suffix)
}

fn invalid_text(name: &String) -> (r: String)
    ensures
        r@ == invalid_msg(name@),
{
    String::from_str("Invalid parameter for ").concat(name.as_str())
}

/// Which values of an ordered-family filter a condition binds.
enum Binding {
    All,
    First,
    FirstTwo,
}

/// The condition for an ordered-family filter with `n` values, and which of
/// them it binds.
fn ordered_clause(col: String, name: &String, n: usize, op: WhereOpNumberDate, pos: u64) -> (r:
    Result<(String, Binding), AppError>)
    requires
        pos < u64::MAX,
    ensures
        match ordered_step(
            col@,
            name@,
            n as nat,
            op,
            pos as nat,
            BindView::Bool(true),
            BindView::Bool(true),
            BindView::Bool(true),
        ) {
            Step::Fail(m) => r matches Err(AppError::Response(msg, code)) && msg@ == m && code
                == BAD_REQUEST,
            Step::Emit(c, _) => r matches Ok((clause, binding)) && clause@ == c && (match binding {
                Binding::All => (op == WhereOpNumberDate::IN || op == WhereOpNumberDate::NIN) && n
                    > 0,
                Binding::First => op != WhereOpNumberDate::IN && op != WhereOpNumberDate::NIN
                    && op != WhereOpNumberDate::BETWEEN && n > 0,
                Binding::FirstTwo => op == WhereOpNumberDate::BETWEEN && n == 2,
            }),
            Step::Skip => false,
        },
{
    if op == WhereOpNumberDate::BETWEEN {
        if n == 2 {
            let clause = col.concat(" BETWEEN ").concat(placeholder_text(pos).as_str()).concat(
                " AND ",
            ).concat(placeholder_text(pos + 1).as_str());
            Ok((clause, Binding::FirstTwo))
        } else {
            Err(bad_request(message("Invalid parameter for ", name, ". from and to must be set")))
        }
    } else if n == 0 {
        Err(bad_request(invalid_text(name)))
    } else if op == WhereOpNumberDate::IN {
        Ok((col.concat(" = ANY(").concat(placeholder_text(pos).as_str()).concat(")"), Binding::All))
    } else if op == WhereOpNumberDate::NIN {
        Ok((col.concat(" != ALL(").concat(placeholder_text(pos).as_str()).concat(")"), Binding::All))
    } else {
        Ok((op_clause_text(&col, op.token(), pos), Binding::First))
    }
}

fn bad_request(m: String) -> (r: AppError)
    ensures
        r == AppError::Response(m, BAD_REQUEST),
{
    AppError::Response(m, BAD_REQUEST)
}

/// `alias name <token> $pos`.
fn op_clause_text(col: &String, token: &str, pos: u64) -> (r: String)
    ensures
        r@ == op_clause(col@, token@, pos as nat),
{
    col.clone().concat(" ").concat(token).concat(" ").concat(placeholder_text(pos).as_str())
}

/// Compiles one column of a filter set: `Ok(None)` to skip it, `Ok(Some(..))`
/// for the condition and its bound values, `Err` for a malformed filter.
pub fn filter_clause(alias: &str, column: &Column, pos: u64) -> (r: Result<
    Option<(String, Vec<BindValue>)>,
    AppError,
>)
    requires
        pos < u64::MAX,
    ensures
        match filter_step(alias@, column.name@, column.slot@, pos as nat) {
            Step::Skip => r == Ok::<Option<(String, Vec<BindValue>)>, AppError>(None),
            Step::Fail(m) => r matches Err(AppError::Response(msg, code)) && msg@ == m && code
                == BAD_REQUEST,
            Step::Emit(c, b) => r matches Ok(Some((clause, binds))) && clause@ == c && bind_views(
                binds@,
            ) == b,
        },
{
    let col = String::from_str(alias).concat(column.name.as_str());
    let name = &column.name;
    match &column.slot {
        Slot::Text(Some(f)) => {
            if f.val.len() == 0 {
                return Err(bad_request(invalid_text(name)));
            }
            if f.op == WhereOp::IN || f.op == WhereOp::NIN {
                let clause = if f.op == WhereOp::IN {
                    col.concat(" = ANY(").concat(placeholder_text(pos).as_str()).concat(")")
                } else {
                    col.concat(" != ALL(").concat(placeholder_text(pos).as_str()).concat(")")
                };
                let binds = vec![BindValue::TextList(copy_texts(&f.val))];
                assert(bind_views(binds@) =~= seq![BindView::TextList(texts(f.val@))]);
                Ok(Some((clause, binds)))
            } else {
                let value = if f.op == WhereOp::LIKE {
                    f.val[0].clone().concat("%")
                } else {
                    f.val[0].clone()
                };
                let clause = op_clause_text(&col, f.op.token(), pos);
                let binds = vec![BindValue::Text(value)];
                assert(bind_views(binds@) =~= seq![BindView::Text(value@)]);
                Ok(Some((clause, binds)))
            }
        },
        Slot::Number(Some(f)) => {
            let (clause, binding) = ordered_clause(col, name, f.val.len(), f.op, pos)?;
            let binds = match binding {
                Binding::All => vec![BindValue::IntList(copy_values(&f.val))],
                Binding::First => vec![BindValue::Int(f.val[0])],
                Binding::FirstTwo => vec![BindValue::Int(f.val[0]), BindValue::Int(f.val[1])],
            };
            assert(bind_views(binds@) =~= match filter_step(
                alias@,
                column.name@,
                column.slot@,
                pos as nat,
            ) {
                Step::Emit(_, b) => b,
                _ => seq![],
            });
            Ok(Some((clause, binds)))
        },
        Slot::Date(Some(f)) => {
            let (clause, binding) = ordered_clause(col, name, f.val.len(), f.op, pos)?;
            let binds = match binding {
                Binding::All => vec![BindValue::DateList(copy_values(&f.val))],
                Binding::First => vec![BindValue::Date(f.val[0])],
                Binding::FirstTwo => vec![BindValue::Date(f.val[0]), BindValue::Date(f.val[1])],
            };
            assert(bind_views(binds@) =~= match filter_step(
                alias@,
                column.name@,
                column.slot@,
                pos as nat,
            ) {
                Step::Emit(_, b) => b,
                _ => seq![],
            });
            Ok(Some((clause, binds)))
        },
        Slot::Bool(Some(f)) => {
            if f.val.len() != 1 {
                return Err(
                    bad_request(message("Invalid parameter for ", name, ". pass either true or false")),
                );
            }
            let clause = op_clause_text(&col, f.op.token(), pos);
            let binds = vec![BindValue::Bool(f.val[0])];
            assert(bind_views(binds@) =~= seq![BindView::Bool(f.val@[0])]);
            Ok(Some((clause, binds)))
        },
        Slot::Status(Some(f)) => {
            if f.val.len() != 1 {
                return Err(
                    bad_request(
                        message("Invalid parameter for ", name, ". Pass either Active or Inactive"),
                    ),
                );
            }
            let clause = op_clause_text(&col, f.op.token(), pos);
            let binds = vec![BindValue::Status(f.val[0])];
            assert(bind_views(binds@) =~= seq![BindView::Status(f.val@[0])]);
            Ok(Some((clause, binds)))
        },
        _ => Ok(None),
    }
}


/// What the first `n` columns of a filter set compile to: the WHERE
/// conditions, the bound values and the next bind position, or the first
/// failure.
pub open spec fn filters_upto(alias: Seq<char>, cols: Seq<(Seq<char>, SlotView)>, n: nat) -> Result<
    (Seq<Seq<char>>, Seq<BindView>, nat),
    Seq<char>,
>
    decreases n,
{
    if n == 0 {
        Ok((Seq::empty(), Seq::empty(), 1))
    } else {
        match filters_upto(alias, cols, (n - 1) as nat) {
            Err(m) => Err(m),
            Ok((ws, bs, pos)) => match filter_step(alias, cols[n - 1].0, cols[n - 1].1, pos) {
                Step::Skip => Ok((ws, bs, pos)),
                Step::Fail(m) => Err(m),
                Step::Emit(c, b) => Ok((ws.push(c), bs + b, pos + b.len())),
            },
        }
    }
}

/// What a whole filter set compiles to.
pub open spec fn compile_filters(alias: Seq<char>, cols: Seq<(Seq<char>, SlotView)>) -> Result<
    (Seq<Seq<char>>, Seq<BindView>, nat),
    Seq<char>,
> {
    filters_upto(alias, cols, cols.len())
}

/// The ORDER BY item of one column of an order set, if it has a direction.
pub open spec fn order_item(alias: Seq<char>, name: Seq<char>, slot: SlotView) -> Option<Seq<char>> {
    match slot {
        SlotView::Order(Some(Order::ASC)) => Some(alias + name + " ASC"@),
        SlotView::Order(Some(Order::DESC)) => Some(alias + name + " DESC"@),
        _ => None,
    }
}

/// The ORDER BY items of the first `n` columns of an order set.
pub open spec fn orders_upto(alias: Seq<char>, cols: Seq<(Seq<char>, SlotView)>, n: nat) -> Seq<
    Seq<char>,
>
    decreases n,
{
    if n == 0 {
        Seq::empty()
    } else {
        let prev = orders_upto(alias, cols, (n - 1) as nat);
        match order_item(alias, cols[n - 1].0, cols[n - 1].1) {
            Some(o) => prev.push(o),
            None => prev,
        }
    }
}

/// The ORDER BY items of a whole order set.
pub open spec fn compile_orders(alias: Seq<char>, cols: Seq<(Seq<char>, SlotView)>) -> Seq<Seq<char>> {
    orders_upto(alias, cols, cols.len())
}

/// Each condition binds at least one value and at most two, and the next
/// bind position is one past the values bound so far.
pub proof fn lemma_filters_positions(alias: Seq<char>, cols: Seq<(Seq<char>, SlotView)>, n: nat)
    ensures
        filters_upto(alias, cols, n) matches Ok((ws, bs, pos)) ==> pos == bs.len() + 1 && bs.len()
            <= 2 * n,
    decreases n,
{
    if n > 0 {
        lemma_filters_positions(alias, cols, (n - 1) as nat);
    }
}

fn compile_filter_set(query: Select, alias: &str, cols: &Vec<Column>) -> (r: Result<
    (Select, Vec<BindValue>, u64),
    AppError,
>)
    requires
        cols.len() <= u32::MAX,
    ensures
        match compile_filters(alias@, column_views(cols@)) {
            Ok((ws, bs, n)) => r matches Ok((q, binds, next)) && select_prefix(q) == select_prefix(
                query,
            ) && select_from(q) == select_from(query) && select_grouping(q) == select_grouping(query) && select_where(q) == select_where(
                query,
            ) + ws && select_order_by(q) == select_order_by(query) && select_limit(q)
                == select_limit(query) && select_offset(q) == select_offset(query) && bind_views(
                binds@,
            ) == bs && next == n,
            Err(m) => r matches Err(AppError::Response(msg, code)) && msg@ == m && code
                == BAD_REQUEST,
        },
{
    let ghost views = column_views(cols@);
    let ghost mut ws: Seq<Seq<char>> = Seq::empty();
    let mut q = query;
    let mut binds: Vec<BindValue> = Vec::new();
    let mut pos: u64 = 1;
    let mut i: usize = 0;
    assert(select_where(q) =~= select_where(query) + ws);
    assert(bind_views(binds@) =~= Seq::<BindView>::empty());
    while i < cols.len()
        invariant
            i <= cols.len(),
            cols.len() <= u32::MAX,
            views == column_views(cols@),
            filters_upto(alias@, views, i as nat) == Ok::<
                (Seq<Seq<char>>, Seq<BindView>, nat),
                Seq<char>,
            >((ws, bind_views(binds@), pos as nat)),
            select_prefix(q) == select_prefix(query) && select_from(q) == select_from(query),
            select_grouping(q) == select_grouping(query),
            select_where(q) == select_where(query) + ws,
            select_order_by(q) == select_order_by(query),
            select_limit(q) == select_limit(query),
            select_offset(q) == select_offset(query),
        decreases cols.len() - i,
    {
        proof {
            lemma_filters_positions(alias@, views, i as nat);
        }
        assert(views[i as int] == cols@[i as int]@);
        match filter_clause(alias, &cols[i], pos) {
            Err(e) => {
                proof {
                    assert(filters_upto(alias@, views, (i + 1) as nat) == filters_upto(
                        alias@,
                        views,
                        cols.len() as nat,
                    )) by {
                        lemma_failure_sticks(alias@, views, (i + 1) as nat, cols.len() as nat);
                    }
                }
                return Err(e);
            },
            Ok(None) => {},
            Ok(Some((clause, new_binds))) => {
                let ghost old_binds = binds@;
                let mut new_binds = new_binds;
                let ghost added = new_binds@;
                let k: usize = new_binds.len();
                proof {
                    ws = ws.push(clause@);
                }
                q = add_where(q, clause);
                binds.append(&mut new_binds);
                assert(bind_views(binds@) =~= bind_views(old_binds) + bind_views(added));
                pos = pos + k as u64;
                assert(select_where(q) =~= select_where(query) + ws);
            },
        }
        i = i + 1;
    }
    Ok((q, binds, pos))
}

/// Once a prefix of a filter set fails, every longer prefix fails the same way.
pub proof fn lemma_failure_sticks(
    alias: Seq<char>,
    cols: Seq<(Seq<char>, SlotView)>,
    m: nat,
    n: nat,
)
    requires
        m <= n,
        filters_upto(alias, cols, m) is Err,
    ensures
        filters_upto(alias, cols, n) == filters_upto(alias, cols, m),
    decreases n - m,
{
    if m < n {
        lemma_failure_sticks(alias, cols, m, (n - 1) as nat);
    }
}

fn compile_order_set(query: Select, alias: &str, cols: &Vec<Column>) -> (r: Select)
    ensures
        select_prefix(r) == select_prefix(query),
        select_from(r) == select_from(query),
        select_grouping(r) == select_grouping(query),
        select_where(r) == select_where(query),
        select_order_by(r) == select_order_by(query) + compile_orders(alias@, column_views(cols@)),
        select_limit(r) == select_limit(query),
        select_offset(r) == select_offset(query),
{
    let ghost views = column_views(cols@);
    let mut q = query;
    let mut i: usize = 0;
    assert(select_order_by(q) =~= select_order_by(query) + orders_upto(alias@, views, 0));
    while i < cols.len()
        invariant
            i <= cols.len(),
            views == column_views(cols@),
            select_prefix(q) == select_prefix(query) && select_from(q) == select_from(query),
            select_grouping(q) == select_grouping(query),
            select_where(q) == select_where(query),
            select_order_by(q) == select_order_by(query) + orders_upto(alias@, views, i as nat),
            select_limit(q) == select_limit(query),
            select_offset(q) == select_offset(query),
        decreases cols.len() - i,
    {
        assert(views[i as int] == cols@[i as int]@);
        let column = &cols[i];
        match column.slot {
            Slot::Order(Some(Order::ASC)) => {
                let expression = String::from_str(alias).concat(column.name.as_str());
                q = add_order_asc(q, expression);
            },
            Slot::Order(Some(Order::DESC)) => {
                let expression = String::from_str(alias).concat(column.name.as_str());
                q = add_order_desc(q, expression);
            },
            _ => {},
        }
        assert(select_order_by(q) =~= select_order_by(query) + orders_upto(
            alias@,
            views,
            (i + 1) as nat,
        ));
        i = i + 1;
    }
    q
}

/// The page size in effect: the requested one, else the default, and never
/// more than `MAX_LIMIT`. A requested size below the nominal minimum is kept.
pub open spec fn effective_limit(limit: Option<u64>, default_limit: u64) -> u64 {
    let l = match limit {
        Some(l) => l,
        None => default_limit,
    };
    if l > MAX_LIMIT {
        MAX_LIMIT
    } else {
        l
    }
}

/// The page size in effect: the requested one, else the default, and never
/// more than `MAX_LIMIT`.
pub fn effective_limit_value(limit: Option<u64>, default_limit: u64) -> (r: u64)
    ensures
        r == effective_limit(limit, default_limit),
{
    let l = match limit {
        Some(l) => l,
        None => default_limit,
    };
    if l > MAX_LIMIT {
        MAX_LIMIT
    } else {
        l
    }
}

/// The requested page, 1 when absent.
pub open spec fn page_of(page: Option<u64>) -> int {
    match page {
        Some(p) => p as int,
        None => 1,
    }
}

/// The number of rows before page `page` when each holds `limit` rows.
pub open spec fn offset_of(limit: u64, page: Option<u64>) -> int {
    limit * (page_of(page) - 1)
}

/// The query envelope: page, page size, filters, combination mode, metadata
/// and sort order, as sent by a client.
pub struct QueryParams<F: Iterable, O: Iterable, M = bool> {
    pub page: Option<u64>,
    pub limit: Option<u64>,
    pub filter: Option<F>,
    pub filter_type: Option<FilterType>,
    pub meta: Option<M>,
    pub order: Option<O>,
}

impl<F: Iterable, O: Iterable, M> QueryParams<F, O, M> {
    /// The page is at least 1 and the offset that `limit` gives fits in a `u64`.
    pub open spec fn offset_fits(&self, limit: u64) -> bool {
        page_of(self.page) >= 1 && offset_of(limit, self.page) <= u64::MAX
    }

    /// What the envelope compiles to: ORDER BY items, WHERE conditions, bound
    /// values and the next bind position, or the message of the first
    /// malformed filter.
    pub open spec fn outcome(&self, alias: Seq<char>) -> Result<
        (Seq<Seq<char>>, Seq<Seq<char>>, Seq<BindView>, nat),
        Seq<char>,
    > {
        let orders = match self.order {
            Some(o) => compile_orders(alias, o.columns()),
            None => Seq::empty(),
        };
        match self.filter {
            None => Ok((orders, Seq::empty(), Seq::empty(), 1)),
            Some(f) => match compile_filters(alias, f.columns()) {
                Err(m) => Err(m),
                Ok((ws, bs, n)) => Ok((orders, ws, bs, n)),
            },
        }
    }

    /// `q` is `query` compiled with this envelope, binding `binds` and with
    /// `next` the next bind position.
    pub open spec fn compiled_as(
        &self,
        query: Select,
        alias: Seq<char>,
        default_limit: u64,
        q: Select,
        binds: Seq<BindView>,
        next: nat,
    ) -> bool {
        let limit = effective_limit(self.limit, default_limit);
        let offset = offset_of(limit, self.page);
        match self.outcome(alias) {
            Ok((os, ws, bs, n)) => {
                &&& select_prefix(q) == select_prefix(query) && select_from(q) == select_from(query)
                &&& select_grouping(q) == select_grouping(query)
                &&& select_where(q) == select_where(query) + ws
                &&& select_order_by(q) == select_order_by(query) + os
                &&& select_limit(q) == Some(dec(limit as nat))
                &&& select_offset(q) == (if offset > 0 {
                    Some(dec(offset as nat))
                } else {
                    select_offset(query)
                })
                &&& binds == bs
                &&& next == n
            },
            Err(_) => false,
        }
    }

    /// `text` is the rendered text of `query` compiled with this envelope,
    /// binding `binds` and with `next` the next bind position.
    pub open spec fn compiles_to(
        &self,
        query: Select,
        alias: Seq<char>,
        default_limit: u64,
        text: Seq<char>,
        binds: Seq<BindView>,
        next: nat,
    ) -> bool {
        exists|q: Select|
            #[trigger] self.compiled_as(query, alias, default_limit, q, binds, next) && text
                == rendered(q)
    }

    /// The filter set, if any, has a number of columns that bind positions
    /// can count.
    pub open spec fn columns_fit(&self) -> bool {
        self.filter matches Some(f) ==> f.columns().len() <= u32::MAX
    }

    /// Rows to skip before the requested page, for pages of `limit` rows.
    pub fn get_offset(&self, limit: u64) -> (r: u64)
        requires
            self.offset_fits(limit),
        ensures
            r == offset_of(limit, self.page),
    {
        let page = match self.page {
            Some(p) => p,
            None => 1,
        };
        limit * (page - 1)
    }

    /// Checks the envelope's own bounds: a page of at least 1 and a page
    /// size between 2 and `MAX_LIMIT`.
    pub fn validate(&self) -> (r: Result<(), AppError>)
        ensures
            r is Ok <==> (page_of(self.page) >= 1 && (self.limit matches Some(l) ==> 2 <= l
                <= MAX_LIMIT)),
            r matches Err(e) ==> e.status_spec() == BAD_REQUEST,
    {
        if let Some(p) = self.page {
            if p < 1 {
                return Err(bad_request(String::from_str("page must be at least 1")));
            }
        }
        if let Some(l) = self.limit {
            if l < 2 || l > MAX_LIMIT {
                return Err(bad_request(String::from_str("limit must be between 2 and 100")));
            }
        }
        Ok(())
    }

    /// Compiles the envelope onto the statement `query`: sets LIMIT to the
    /// effective page size, sets OFFSET when it is positive, appends one
    /// ORDER BY item per directed column and one WHERE condition per filter,
    /// in declaration order, each column prefixed with `alias`. Returns the
    /// statement, the values for its placeholders in order, and the next
    /// bind position; or the error of the first malformed filter.
    pub fn build_query(&self, query: Select, alias: &str, default_limit: u64) -> (r: Result<
        (Select, Vec<BindValue>, u64),
        AppError,
    >)
        requires
            self.offset_fits(effective_limit(self.limit, default_limit)),
            self.columns_fit(),
        ensures
            match self.outcome(alias@) {
                Ok(_) => r matches Ok((q, binds, next)) && self.compiled_as(
                    query,
                    alias@,
                    default_limit,
                    q,
                    bind_views(binds@),
                    next as nat,
                ),
                Err(m) => r matches Err(AppError::Response(msg, code)) && msg@ == m && code
                    == BAD_REQUEST,
            },
    {
        let limit = effective_limit_value(self.limit, default_limit);
        let mut q = set_limit(query, decimal(limit));
        let offset = self.get_offset(limit);
        if offset > 0 {
            q = set_offset(q, decimal(offset));
        }
        if let Some(orders) = &self.order {
            let cols = orders.iter();
            q = compile_order_set(q, alias, &cols);
        }
        match &self.filter {
            None => {
                let binds: Vec<BindValue> = Vec::new();
                assert(bind_views(binds@) =~= Seq::<BindView>::empty());
                assert(select_where(q) =~= select_where(query) + Seq::<Seq<char>>::empty());
                Ok((q, binds, 1))
            },
            Some(filters) => {
                let cols = filters.iter();
                compile_filter_set(q, alias, &cols)
            },
        }
    }

    /// Compiles the envelope onto `query` as `build_query` does and renders
    /// the statement: its text, the values for its placeholders in order, and
    /// the next bind position.
    pub fn compile(&self, query: Select, alias: &str, default_limit: u64) -> (r: Result<
        (String, Vec<BindValue>, u64),
        AppError,
    >)
        requires
            self.offset_fits(effective_limit(self.limit, default_limit)),
            self.columns_fit(),
        ensures
            match self.outcome(alias@) {
                Ok(_) => r matches Ok((text, binds, next)) && self.compiles_to(
                    query,
                    alias@,
                    default_limit,
                    text@,
                    bind_views(binds@),
                    next as nat,
                ),
                Err(m) => r matches Err(AppError::Response(msg, code)) && msg@ == m && code
                    == BAD_REQUEST,
            },
    {
        match self.build_query(query, alias, default_limit) {
            Ok((q, binds, next)) => {
                let text = render(&q);
                assert(self.compiled_as(
                    query,
                    alias@,
                    default_limit,
                    q,
                    bind_views(binds@),
                    next as nat,
                ) && text@ == rendered(q));
                Ok((text, binds, next))
            },
            Err(e) => Err(e),
        }
    }
}

} // verus!
