use scooby::postgres::select;
use services::ama::{Ama, FilterColumns, OrderColumns};
use services::error::AppError;
use services::query_param::{
    BindValue, Date, Filter, FilterType, Order, QueryParams, WhereOp, WhereOpEnum,
    WhereOpNumberDate,
};
use services::Status;

fn no_filters() -> FilterColumns {
    FilterColumns { content: None, status: None, effective_date: None }
}

fn no_orders() -> OrderColumns {
    OrderColumns { id: None, content: None, status: None, effective_date: None }
}

fn example_params() -> QueryParams<FilterColumns, OrderColumns> {
    QueryParams {
        limit: None,
        meta: None,
        page: Some(1),
        filter_type: Some(FilterType::AND),
        filter: Some(FilterColumns {
            content: Some(Filter { op: WhereOp::NEQ, val: vec!["Sam".to_string()] }),
            status: None,
            effective_date: None,
        }),
        order: Some(OrderColumns {
            id: Some(Order::DESC),
            content: Some(Order::ASC),
            status: None,
            effective_date: None,
        }),
    }
}

fn params(
    page: Option<u64>,
    limit: Option<u64>,
    filter: Option<FilterColumns>,
    order: Option<OrderColumns>,
) -> QueryParams<FilterColumns, OrderColumns> {
    QueryParams { page, limit, filter, filter_type: None, meta: None, order }
}

fn compile(
    p: &QueryParams<FilterColumns, OrderColumns>,
    alias: &str,
    default_limit: u64,
) -> Result<(String, Vec<BindValue>, u64), AppError> {
    p.compile(select("*").from("ama"), alias, default_limit)
}

fn date(year: i32, month: u32, day: u32) -> Date {
    Date { year, month, day }
}

#[test]
fn should_build_basic_query() {
    let params = example_params();
    let query = select("*").from("ama");
    let (query, _, _) = params.build_query(query, "", 20).unwrap();
    let sql = query.to_string();
    assert_eq!(
        sql, "SELECT * FROM ama WHERE content != $1 ORDER BY id DESC, content ASC LIMIT 20",
        "testing the basic query"
    );
}

#[test]
fn basic_query_binds_the_filter_value() {
    let (_, binds, next) = compile(&example_params(), "", 20).unwrap();
    assert_eq!(binds, vec![BindValue::Text("Sam".to_string())]);
    assert_eq!(next, 2);
}

#[test]
fn default_limit_applies_when_limit_is_absent() {
    let (sql, binds, next) = compile(&params(None, None, None, None), "", 37).unwrap();
    assert_eq!(sql, "SELECT * FROM ama LIMIT 37");
    assert!(binds.is_empty());
    assert_eq!(next, 1);
}

#[test]
fn limit_above_maximum_is_clamped() {
    let (sql, _, _) = compile(&params(None, Some(500), None, None), "", 20).unwrap();
    assert_eq!(sql, "SELECT * FROM ama LIMIT 100");
    let (sql, _, _) = compile(&params(None, Some(101), None, None), "", 20).unwrap();
    assert_eq!(sql, "SELECT * FROM ama LIMIT 100");
    let (sql, _, _) = compile(&params(None, None, None, None), "", 250).unwrap();
    assert_eq!(sql, "SELECT * FROM ama LIMIT 100");
}

#[test]
fn limit_below_minimum_is_kept() {
    let (sql, _, _) = compile(&params(None, Some(1), None, None), "", 20).unwrap();
    assert_eq!(sql, "SELECT * FROM ama LIMIT 1");
    let p = params(None, Some(1), None, None);
    assert!(p.validate().is_err());
}

#[test]
fn first_page_has_no_offset() {
    let (sql, _, _) = compile(&params(Some(1), Some(20), None, None), "", 20).unwrap();
    assert_eq!(sql, "SELECT * FROM ama LIMIT 20");
    let (sql, _, _) = compile(&params(None, Some(20), None, None), "", 20).unwrap();
    assert_eq!(sql, "SELECT * FROM ama LIMIT 20");
}

#[test]
fn third_page_of_twenty_is_offset_forty() {
    let (sql, _, _) = compile(&params(Some(3), Some(20), None, None), "", 10).unwrap();
    assert_eq!(sql, "SELECT * FROM ama LIMIT 20 OFFSET 40");
}

#[test]
fn get_offset_multiplies_by_previous_pages() {
    assert_eq!(params(Some(3), None, None, None).get_offset(20), 40);
    assert_eq!(params(None, None, None, None).get_offset(20), 0);
    assert_eq!(params(Some(7), None, None, None).get_offset(15), 90);
}

#[test]
fn orders_follow_declaration_order() {
    let order = OrderColumns {
        id: None,
        content: Some(Order::DESC),
        status: None,
        effective_date: Some(Order::ASC),
    };
    let (sql, _, _) = compile(&params(None, None, None, Some(order)), "", 20).unwrap();
    assert_eq!(sql, "SELECT * FROM ama ORDER BY content DESC, effective_date ASC LIMIT 20");
    let order = OrderColumns {
        id: Some(Order::ASC),
        content: None,
        status: Some(Order::DESC),
        effective_date: None,
    };
    let (sql, _, _) = compile(&params(None, None, None, Some(order)), "", 20).unwrap();
    assert_eq!(sql, "SELECT * FROM ama ORDER BY id ASC, status DESC LIMIT 20");
    let (sql, _, _) = compile(&params(None, None, None, Some(no_orders())), "", 20).unwrap();
    assert_eq!(sql, "SELECT * FROM ama LIMIT 20");
}

#[test]
fn alias_prefixes_every_column() {
    let filter = FilterColumns {
        content: Some(Filter { op: WhereOp::EQ, val: vec!["x".to_string()] }),
        status: None,
        effective_date: None,
    };
    let order = OrderColumns { id: Some(Order::ASC), ..no_orders() };
    let (sql, _, _) = compile(&params(None, None, Some(filter), Some(order)), "a.", 20).unwrap();
    assert_eq!(sql, "SELECT * FROM ama WHERE a.content = $1 ORDER BY a.id ASC LIMIT 20");
}

#[test]
fn between_with_two_values_binds_both() {
    let filter = FilterColumns {
        effective_date: Some(Filter {
            op: WhereOpNumberDate::BETWEEN,
            val: vec![date(2024, 1, 1), date(2024, 12, 31)],
        }),
        ..no_filters()
    };
    let (sql, binds, next) = compile(&params(None, None, Some(filter), None), "", 20).unwrap();
    assert_eq!(sql, "SELECT * FROM ama WHERE effective_date BETWEEN $1 AND $2 LIMIT 20");
    assert_eq!(binds, vec![BindValue::Date(date(2024, 1, 1)), BindValue::Date(date(2024, 12, 31))]);
    assert_eq!(next, 3);
}

#[test]
fn between_with_one_or_three_values_fails() {
    for n in [0usize, 1, 3] {
        let val: Vec<Date> = (0..n).map(|i| date(2024, 1, 1 + i as u32)).collect();
        let filter = FilterColumns {
            effective_date: Some(Filter { op: WhereOpNumberDate::BETWEEN, val }),
            ..no_filters()
        };
        let r = compile(&params(None, None, Some(filter), None), "", 20);
        assert_eq!(
            r.unwrap_err(),
            AppError::Response(
                "Invalid parameter for effective_date. from and to must be set".to_string(),
                400
            )
        );
    }
}

#[test]
fn ordered_family_operators() {
    let d = date(2023, 5, 17);
    let cases = [
        (WhereOpNumberDate::EQ, "effective_date = $1"),
        (WhereOpNumberDate::NEQ, "effective_date != $1"),
        (WhereOpNumberDate::LT, "effective_date < $1"),
        (WhereOpNumberDate::LTE, "effective_date <= $1"),
        (WhereOpNumberDate::GT, "effective_date > $1"),
        (WhereOpNumberDate::GTE, "effective_date >= $1"),
    ];
    for (op, clause) in cases {
        let filter = FilterColumns {
            effective_date: Some(Filter { op, val: vec![d, date(2023, 6, 1)] }),
            ..no_filters()
        };
        let (sql, binds, _) = compile(&params(None, None, Some(filter), None), "", 20).unwrap();
        assert_eq!(sql, format!("SELECT * FROM ama WHERE {clause} LIMIT 20"));
        assert_eq!(binds, vec![BindValue::Date(d)]);
    }
}

#[test]
fn ordered_membership_binds_the_whole_list() {
    let days = vec![date(2023, 1, 1), date(2023, 2, 1), date(2023, 3, 1)];
    let filter = FilterColumns {
        effective_date: Some(Filter { op: WhereOpNumberDate::IN, val: days.clone() }),
        ..no_filters()
    };
    let (sql, binds, next) = compile(&params(None, None, Some(filter), None), "", 20).unwrap();
    assert_eq!(sql, "SELECT * FROM ama WHERE effective_date = ANY($1) LIMIT 20");
    assert_eq!(binds, vec![BindValue::DateList(days.clone())]);
    assert_eq!(next, 2);
    let filter = FilterColumns {
        effective_date: Some(Filter { op: WhereOpNumberDate::NIN, val: days.clone() }),
        ..no_filters()
    };
    let (sql, binds, _) = compile(&params(None, None, Some(filter), None), "", 20).unwrap();
    assert_eq!(sql, "SELECT * FROM ama WHERE effective_date != ALL($1) LIMIT 20");
    assert_eq!(binds, vec![BindValue::DateList(days)]);
}

#[test]
fn ordered_filter_without_values_fails() {
    let filter = FilterColumns {
        effective_date: Some(Filter { op: WhereOpNumberDate::GT, val: vec![] }),
        ..no_filters()
    };
    let r = compile(&params(None, None, Some(filter), None), "", 20);
    assert_eq!(
        r.unwrap_err(),
        AppError::Response("Invalid parameter for effective_date".to_string(), 400)
    );
}

#[test]
fn text_like_appends_wildcard_to_bound_value() {
    let filter = FilterColumns {
        content: Some(Filter { op: WhereOp::LIKE, val: vec!["Sa".to_string()] }),
        ..no_filters()
    };
    let (sql, binds, _) = compile(&params(None, None, Some(filter), None), "", 20).unwrap();
    assert_eq!(sql, "SELECT * FROM ama WHERE content LIKE $1 LIMIT 20");
    assert_eq!(binds, vec![BindValue::Text("Sa%".to_string())]);
}

#[test]
fn text_membership_binds_the_whole_list() {
    let names = vec!["a".to_string(), "b".to_string()];
    let filter = FilterColumns {
        content: Some(Filter { op: WhereOp::IN, val: names.clone() }),
        ..no_filters()
    };
    let (sql, binds, _) = compile(&params(None, None, Some(filter), None), "", 20).unwrap();
    assert_eq!(sql, "SELECT * FROM ama WHERE content = ANY($1) LIMIT 20");
    assert_eq!(binds, vec![BindValue::TextList(names.clone())]);
    let filter = FilterColumns {
        content: Some(Filter { op: WhereOp::NIN, val: names.clone() }),
        ..no_filters()
    };
    let (sql, binds, _) = compile(&params(None, None, Some(filter), None), "", 20).unwrap();
    assert_eq!(sql, "SELECT * FROM ama WHERE content != ALL($1) LIMIT 20");
    assert_eq!(binds, vec![BindValue::TextList(names)]);
}

#[test]
fn text_filter_without_values_fails() {
    let filter = FilterColumns { content: Some(Filter { op: WhereOp::EQ, val: vec![] }), ..no_filters() };
    let r = compile(&params(None, None, Some(filter), None), "", 20);
    assert_eq!(r.unwrap_err(), AppError::Response("Invalid parameter for content".to_string(), 400));
}

#[test]
fn discrete_filter_needs_exactly_one_value() {
    for val in [vec![], vec![Status::Active, Status::Inactive]] {
        let filter = FilterColumns {
            status: Some(Filter { op: WhereOpEnum::EQ, val }),
            ..no_filters()
        };
        let r = compile(&params(None, None, Some(filter), None), "", 20);
        assert_eq!(
            r.unwrap_err(),
            AppError::Response(
                "Invalid parameter for status. Pass either Active or Inactive".to_string(),
                400
            )
        );
    }
    let cases = [(WhereOpEnum::EQ, "="), (WhereOpEnum::NEQ, "!="), (WhereOpEnum::IN, "IN")];
    for (op, token) in cases {
        let filter = FilterColumns {
            status: Some(Filter { op, val: vec![Status::Inactive] }),
            ..no_filters()
        };
        let (sql, binds, _) = compile(&params(None, None, Some(filter), None), "", 20).unwrap();
        assert_eq!(sql, format!("SELECT * FROM ama WHERE status {token} $1 LIMIT 20"));
        assert_eq!(binds, vec![BindValue::Status(Status::Inactive)]);
    }
}

#[test]
fn filters_are_and_combined_in_declaration_order() {
    let filter = FilterColumns {
        content: Some(Filter { op: WhereOp::EQ, val: vec!["c".to_string()] }),
        status: Some(Filter { op: WhereOpEnum::NEQ, val: vec![Status::Active] }),
        effective_date: Some(Filter {
            op: WhereOpNumberDate::BETWEEN,
            val: vec![date(2020, 1, 1), date(2021, 1, 1)],
        }),
    };
    let mut p = params(Some(2), Some(10), Some(filter), None);
    p.filter_type = Some(FilterType::OR);
    let (sql, binds, next) = compile(&p, "", 20).unwrap();
    assert_eq!(
        sql,
        "SELECT * FROM ama WHERE content = $1 AND status != $2 AND effective_date BETWEEN $3 AND $4 LIMIT 10 OFFSET 10"
    );
    assert_eq!(
        binds,
        vec![
            BindValue::Text("c".to_string()),
            BindValue::Status(Status::Active),
            BindValue::Date(date(2020, 1, 1)),
            BindValue::Date(date(2021, 1, 1)),
        ]
    );
    assert_eq!(next, 5);
}

#[test]
fn failure_returns_no_statement_even_after_valid_filters() {
    let filter = FilterColumns {
        content: Some(Filter { op: WhereOp::EQ, val: vec!["c".to_string()] }),
        status: Some(Filter { op: WhereOpEnum::EQ, val: vec![] }),
        effective_date: None,
    };
    let r = compile(&params(None, None, Some(filter), None), "", 20);
    assert!(matches!(r, Err(AppError::Response(_, 400))));
}

#[test]
fn build_query_and_compile_agree() {
    let p = example_params();
    let (q, binds, next) = p.build_query(select("*").from("ama"), "", 20).unwrap();
    assert_eq!(compile(&p, "", 20).unwrap(), (q.to_string(), binds, next));
}

#[test]
fn compiling_twice_gives_identical_output() {
    let p = example_params();
    let first = compile(&p, "", 20).unwrap();
    let second = compile(&p, "", 20).unwrap();
    assert_eq!(first, second);
}

#[test]
fn validate_checks_page_and_limit() {
    assert!(params(Some(1), Some(2), None, None).validate().is_ok());
    assert!(params(None, Some(100), None, None).validate().is_ok());
    assert!(params(None, None, None, None).validate().is_ok());
    assert!(params(Some(0), None, None, None).validate().is_err());
    assert!(params(None, Some(101), None, None).validate().is_err());
    let e = params(None, Some(1), None, None).validate().unwrap_err();
    assert_eq!(e.status_code(), 400);
}

#[test]
fn operator_tokens() {
    assert_eq!(WhereOp::NIN.token(), "NOT IN");
    assert_eq!(WhereOp::LIKE.token(), "LIKE");
    assert_eq!(WhereOpNumberDate::BETWEEN.token(), "BETWEEN");
    assert_eq!(WhereOpNumberDate::GTE.token(), ">=");
    assert_eq!(WhereOpEnum::NEQ.token(), "!=");
}

#[test]
fn ama_list_statement_selects_list_columns() {
    let (sql, binds, next) = Ama::list_statement(&example_params()).unwrap();
    assert_eq!(
        sql,
        "SELECT id, status, effective_date FROM ama WHERE content != $1 ORDER BY id DESC, content ASC LIMIT 20"
    );
    assert_eq!(binds, vec![BindValue::Text("Sam".to_string())]);
    assert_eq!(next, 2);
    let (sql, _, _) = Ama::list_statement(&params(Some(2), Some(10), None, None)).unwrap();
    assert_eq!(sql, "SELECT id, status, effective_date FROM ama LIMIT 10 OFFSET 10");
}
