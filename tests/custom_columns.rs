use services::error::AppError;
use services::query_param::{
    filter_clause, BindValue, Column, Filter, Slot, WhereOpEnum, WhereOpNumberDate,
};

fn age(op: WhereOpNumberDate, val: Vec<i32>) -> Column {
    Column { name: "age".to_string(), slot: Slot::Number(Some(Filter { op, val })) }
}

fn verified(op: WhereOpEnum, val: Vec<bool>) -> Column {
    Column { name: "verified".to_string(), slot: Slot::Bool(Some(Filter { op, val })) }
}

#[test]
fn number_between_binds_both_bounds() {
    let r = filter_clause("u.", &age(WhereOpNumberDate::BETWEEN, vec![18, 65]), 3).unwrap();
    assert_eq!(
        r,
        Some(("u.age BETWEEN $3 AND $4".to_string(), vec![BindValue::Int(18), BindValue::Int(65)]))
    );
}

#[test]
fn number_comparison_binds_first_value() {
    let r = filter_clause("", &age(WhereOpNumberDate::LT, vec![30, 40]), 1).unwrap();
    assert_eq!(r, Some(("age < $1".to_string(), vec![BindValue::Int(30)])));
}

#[test]
fn number_between_with_three_values_fails() {
    let r = filter_clause("", &age(WhereOpNumberDate::BETWEEN, vec![1, 2, 3]), 1);
    assert_eq!(
        r.unwrap_err(),
        AppError::Response("Invalid parameter for age. from and to must be set".to_string(), 400)
    );
}

#[test]
fn number_membership_binds_the_list() {
    let r = filter_clause("", &age(WhereOpNumberDate::IN, vec![1, 2]), 12).unwrap();
    assert_eq!(r, Some(("age = ANY($12)".to_string(), vec![BindValue::IntList(vec![1, 2])])));
    let r = filter_clause("", &age(WhereOpNumberDate::NIN, vec![1, 2]), 1).unwrap();
    assert_eq!(r, Some(("age != ALL($1)".to_string(), vec![BindValue::IntList(vec![1, 2])])));
}

#[test]
fn bool_filter_needs_exactly_one_value() {
    let r = filter_clause("", &verified(WhereOpEnum::NEQ, vec![true, false]), 1);
    assert_eq!(
        r.unwrap_err(),
        AppError::Response("Invalid parameter for verified. pass either true or false".to_string(), 400)
    );
    let r = filter_clause("", &verified(WhereOpEnum::EQ, vec![]), 1);
    assert!(r.is_err());
    let r = filter_clause("t.", &verified(WhereOpEnum::EQ, vec![true]), 2).unwrap();
    assert_eq!(r, Some(("t.verified = $2".to_string(), vec![BindValue::Bool(true)])));
}

#[test]
fn empty_and_order_slots_are_skipped() {
    let c = Column { name: "age".to_string(), slot: Slot::Number(None) };
    assert_eq!(filter_clause("", &c, 1).unwrap(), None);
    let c = Column { name: "age".to_string(), slot: Slot::Order(None) };
    assert_eq!(filter_clause("", &c, 1).unwrap(), None);
}
