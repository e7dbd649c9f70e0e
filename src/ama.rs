//! The AMA configuration resource: its records and the columns a list of
//! them can be filtered and ordered by.

use vstd::prelude::*;

use scooby::postgres::Select;

use crate::error::{AppError, BAD_REQUEST};
use crate::query_param::{
    bind_views, effective_limit, BindValue, BindView, Column, Date, DateFilter, EnumFilter,
    Iterable, OrderBy, QueryParams, Slot, SlotView, StringFilter,
};
use crate::sql::{
    from_table, select_columns, select_from, select_grouping, select_limit, select_offset,
    select_order_by, select_prefix, select_where,
};
use crate::Status;

verus! {

/// Filterable columns of the AMA list.
#[derive(Debug)]
pub struct FilterColumns {
    pub content: StringFilter,
    pub status: EnumFilter,
    pub effective_date: DateFilter,
}

/// Orderable columns of the AMA list.
#[derive(Debug, Clone, Copy)]
pub struct OrderColumns {
    pub id: OrderBy,
    pub content: OrderBy,
    pub status: OrderBy,
    pub effective_date: OrderBy,
}

/// A named column.
fn column(name: &str, slot: Slot) -> (r: Column)
    ensures
        r@ == (name@, slot@),
{
    Column { name: String::from_str(name), slot }
}

impl Iterable for FilterColumns {
    open spec fn columns(&self) -> Seq<(Seq<char>, SlotView)> {
        seq![
            ("content"@, Slot::Text(self.content)@),
            ("status"@, Slot::Status(self.status)@),
            ("effective_date"@, Slot::Date(self.effective_date)@),
        ]
    }

    fn iter(&self) -> (r: Vec<Column>) {
        let content = match &self.content {
            Some(f) => Some(f.cloned_texts()),
            None => None,
        };
        let status = match &self.status {
            Some(f) => Some(f.copied()),
            None => None,
        };
        let effective_date = match &self.effective_date {
            Some(f) => Some(f.copied()),
            None => None,
        };
        let r = vec![
            column("content", Slot::Text(content)),
            column("status", Slot::Status(status)),
            column("effective_date", Slot::Date(effective_date)),
        ];
        assert(crate::query_param::column_views(r@) =~= self.columns());
        r
    }
}

impl Iterable for OrderColumns {
    open spec fn columns(&self) -> Seq<(Seq<char>, SlotView)> {
        seq![
            ("id"@, SlotView::Order(self.id)),
            ("content"@, SlotView::Order(self.content)),
            ("status"@, SlotView::Order(self.status)),
            ("effective_date"@, SlotView::Order(self.effective_date)),
        ]
    }

    fn iter(&self) -> (r: Vec<Column>) {
        let r = vec![
            column("id", Slot::Order(self.id)),
            column("content", Slot::Order(self.content)),
            column("status", Slot::Order(self.status)),
            column("effective_date", Slot::Order(self.effective_date)),
        ];
        assert(crate::query_param::column_views(r@) =~= self.columns());
        r
    }
}

/// One row of the AMA list.
#[derive(Debug, Clone, Copy, PartialEq, Eq, Structural)]
pub struct AmaList {
    pub id: i32,
    pub status: Status,
    pub effective_date: Date,
}

/// An AMA record.
#[derive(Debug, Clone, PartialEq)]
pub struct Ama {
    pub id: Option<i32>,
    pub name: String,
    pub country: String,
    pub description: String,
}

/// `base` is the bare list statement `SELECT id, status, effective_date FROM ama`.
pub open spec fn list_skeleton(base: Select) -> bool {
    &&& select_prefix(base) == "SELECT "@ + "id, status, effective_date"@
    &&& select_from(base) == seq!["ama"@]
    &&& select_grouping(base) == Seq::<char>::empty()
    &&& select_where(base) == Seq::<Seq<char>>::empty()
    &&& select_order_by(base) == Seq::<Seq<char>>::empty()
    &&& select_limit(base) == None::<Seq<char>>
    &&& select_offset(base) == None::<Seq<char>>
}

/// `text`, `binds` and `next` are the list statement compiled with `params`,
/// without alias and with the default page size.
pub open spec fn lists_to(
    params: QueryParams<FilterColumns, OrderColumns>,
    text: Seq<char>,
    binds: Seq<BindView>,
    next: nat,
) -> bool {
    exists|base: Select|
        #[trigger] list_skeleton(base) && params.compiles_to(base, ""@, 20, text, binds, next)
}

impl Ama {
    /// Columns the list query selects.
    pub fn list_columns() -> (r: &'static str)
        ensures
            r@ == "id, status, effective_date"@,
    {
        "id, status, effective_date"
    }

    /// Table the records live in.
    pub fn table() -> (r: &'static str)
        ensures
            r@ == "ama"@,
    {
        "ama"
    }

    /// Page size of the list when the envelope names none.
    pub fn default_limit() -> (r: u64)
        ensures
            r == 20,
    {
        20
    }

    /// The statement listing AMA records for `params`: the list columns of
    /// the table, compiled with the envelope and the default page size.
    pub fn list_statement(params: &QueryParams<FilterColumns, OrderColumns>) -> (r: Result<
        (String, Vec<BindValue>, u64),
        AppError,
    >)
        requires
            params.offset_fits(effective_limit(params.limit, 20)),
        ensures
            match params.outcome(""@) {
                Ok(_) => r matches Ok((text, binds, next)) && lists_to(
                    *params,
                    text@,
                    bind_views(binds@),
                    next as nat,
                ),
                Err(m) => r matches Err(AppError::Response(msg, code)) && msg@ == m && code
                    == BAD_REQUEST,
            },
    {
        let base = from_table(
            select_columns(String::from_str(Self::list_columns())),
            String::from_str(Self::table()),
        );
        assert(select_from(base) =~= seq!["ama"@]);
        match params.compile(base, "", Self::default_limit()) {
            Ok((text, binds, next)) => {
                assert(list_skeleton(base));
                Ok((text, binds, next))
            },
            Err(e) => Err(e),
        }
    }

    /// The error for an AMA that does not exist.
    pub fn not_found() -> (r: AppError)
        ensures
            r matches AppError::NotFound(m) && m@ == "AMA"@,
            r.message_spec() == "AMA Not Found"@,
            r.status_spec() == crate::error::NOT_FOUND,
    {
        proof {
            reveal_strlit("AMA");
            reveal_strlit(" Not Found");
            reveal_strlit("AMA Not Found");
        }
        let r = AppError::NotFound(String::from_str("AMA"));
        assert(r.message_spec() =~= "AMA Not Found"@);
        r
    }

    /// The answer to an update or delete that changed `rows_affected` rows:
    /// the record must have existed.
    pub fn change_outcome(rows_affected: u64) -> (r: Result<(), AppError>)
        ensures
            r is Ok <==> rows_affected > 0,
            r matches Err(e) ==> (e matches AppError::NotFound(m) && m@ == "AMA"@)
                && e.message_spec() == "AMA Not Found"@ && e.status_spec() == crate::error::NOT_FOUND,
    {
        if rows_affected > 0 {
            Ok(())
        } else {
            Err(Self::not_found())
        }
    }

    /// The answer to a lookup by id that found `row`.
    pub fn found(row: Option<Ama>) -> (r: Result<Ama, AppError>)
        ensures
            match row {
                Some(a) => r == Ok::<Ama, AppError>(a),
                None => r matches Err(e) && (e matches AppError::NotFound(m) && m@ == "AMA"@)
                    && e.message_spec() == "AMA Not Found"@ && e.status_spec()
                    == crate::error::NOT_FOUND,
            },
    {
        match row {
            Some(a) => Ok(a),
            None => Err(Self::not_found()),
        }
    }
}

} // verus!
