use cozo_pool::cozodb::query::{FilterCondition, FilterOperator, FilterValue, QueryParams};
use cozo_pool::time::Duration;

fn condition(field: &str, operator: FilterOperator, value: FilterValue) -> FilterCondition {
    FilterCondition { field: field.to_string(), operator, value }
}

fn text(value: &str) -> FilterValue {
    FilterValue::String(value.to_string())
}

fn number(value: f64) -> FilterValue {
    FilterValue::Number(value.to_string())
}

#[test]
fn test_query_params_building() {
    let params = QueryParams::new()
        .with_limit(100)
        .with_order_by("created_at DESC")
        .with_filter(FilterCondition {
            field: "language".to_string(),
            operator: FilterOperator::Equals,
            value: FilterValue::String("rust".to_string()),
        });

    let query = params.build_query("code_records");
    assert!(query.contains("SELECT * FROM code_records"));
    assert!(query.contains("LIMIT 100"));
    assert!(query.contains("ORDER BY created_at DESC"));
    assert!(query.contains("language = 'rust'"));
}

#[test]
fn a_query_is_spelled_out_in_full() {
    let params = QueryParams::new()
        .with_filter(condition("language", FilterOperator::Equals, text("rust")))
        .with_filter(condition("lines", FilterOperator::GreaterThan, number(10.0)))
        .with_order_by("created_at DESC")
        .with_limit(100)
        .with_offset(20);
    assert_eq!(
        params.build_query("code_records"),
        "SELECT * FROM code_records WHERE language = 'rust' AND lines > 10 \
         ORDER BY created_at DESC LIMIT 100 OFFSET 20"
    );
    assert_eq!(QueryParams::new().build_query("t"), "SELECT * FROM t");
    assert_eq!(QueryParams::new().with_offset(0).build_query("t"), "SELECT * FROM t OFFSET 0");
    assert_eq!(
        QueryParams::new().with_limit(usize::MAX).build_query("t"),
        format!("SELECT * FROM t LIMIT {}", usize::MAX)
    );
}

#[test]
fn default_query_parameters() {
    let params = QueryParams::default();
    assert_eq!(params.limit, None);
    assert_eq!(params.offset, None);
    assert_eq!(params.order_by, None);
    assert!(params.filters.is_empty());
    assert_eq!(params.timeout, Some(Duration::from_secs(30)));
    let params = params.with_timeout(Duration::from_millis(5));
    assert_eq!(params.timeout, Some(Duration::from_millis(5)));
}

#[test]
fn each_comparison_has_its_clause() {
    let clause = |operator| condition("f", operator, text("v")).to_sql_clause();
    assert_eq!(clause(FilterOperator::Equals), "f = 'v'");
    assert_eq!(clause(FilterOperator::NotEquals), "f != 'v'");
    assert_eq!(clause(FilterOperator::GreaterThan), "f > 'v'");
    assert_eq!(clause(FilterOperator::GreaterThanOrEqual), "f >= 'v'");
    assert_eq!(clause(FilterOperator::LessThan), "f < 'v'");
    assert_eq!(clause(FilterOperator::LessThanOrEqual), "f <= 'v'");
    assert_eq!(clause(FilterOperator::Contains), "f LIKE '%v%'");
    assert_eq!(clause(FilterOperator::StartsWith), "f LIKE 'v%'");
    assert_eq!(clause(FilterOperator::EndsWith), "f LIKE '%v'");
    assert_eq!(clause(FilterOperator::In), "f IN ('v')");
    let list = FilterValue::List(vec![text("a"), number(2.5), FilterValue::Boolean(false)]);
    assert_eq!(condition("f", FilterOperator::In, list).to_sql_clause(), "f IN ('a', 2.5, FALSE)");
    let empty = FilterValue::List(vec![]);
    assert_eq!(condition("f", FilterOperator::In, empty).to_sql_clause(), "f IN ()");
    let nested = FilterValue::List(vec![FilterValue::List(vec![text("a")])]);
    assert_eq!(condition("f", FilterOperator::In, nested).to_sql_clause(), "f IN (NULL)");
}

#[test]
fn values_as_they_stand_in_a_query_and_as_plain_text() {
    assert_eq!(text("it's").to_sql_value(), "'it''s'");
    assert_eq!(text("''").to_sql_value(), "''''''");
    assert_eq!(text("").to_sql_value(), "''");
    assert_eq!(text("it's").to_string(), "it's");
    assert_eq!(number(5.0).to_sql_value(), "5");
    assert_eq!(number(-0.25).to_string(), "-0.25");
    assert_eq!(FilterValue::Boolean(true).to_sql_value(), "TRUE");
    assert_eq!(FilterValue::Boolean(false).to_sql_value(), "FALSE");
    assert_eq!(FilterValue::Boolean(true).to_string(), "true");
    assert_eq!(FilterValue::Boolean(false).to_string(), "false");
    let list = FilterValue::List(vec![
        text("a"),
        FilterValue::List(vec![number(1.0), FilterValue::Boolean(true)]),
        FilterValue::List(vec![]),
    ]);
    assert_eq!(list.to_sql_value(), "NULL");
    assert_eq!(list.to_string(), "[a, [1, true], []]");
}
