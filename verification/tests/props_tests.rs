// Exact serialized forms, classifier scenarios, and count parsing

use reso_client::client::parse_count;
use reso_client::QueryBuilder;
use reso_client::ReplicationQueryBuilder;
use reso_client::ResoError;

#[test]
fn test_full_parameter_order_exact() {
    let query = QueryBuilder::new("Property")
        .apply("groupby((City))")
        .filter("City eq 'Austin'")
        .select(&["A", "B"])
        .expand(&["C", "D"])
        .order_by("ListPrice", "desc")
        .top(5)
        .skip(10)
        .with_count()
        .build()
        .unwrap();

    assert_eq!(
        query.to_odata_string(),
        "Property?$apply=groupby%28%28City%29%29&$filter=City%20eq%20%27Austin%27\
         &$select=A,B&$expand=C,D&$orderby=ListPrice%20desc&$top=5&$skip=10&$count=true"
    );
}

#[test]
fn test_select_round_trip_exact() {
    let query = QueryBuilder::new("Property")
        .select(&["A", "B"])
        .build()
        .unwrap();

    assert_eq!(query.to_odata_string(), "Property?$select=A,B");
}

#[test]
fn test_filter_encoding_exact() {
    let query = QueryBuilder::new("Property")
        .filter("City eq 'Austin'")
        .build()
        .unwrap();

    assert_eq!(
        query.to_odata_string(),
        "Property?$filter=City%20eq%20%27Austin%27"
    );
}

#[test]
fn test_filter_encoding_non_ascii() {
    let query = QueryBuilder::new("P").filter("a\u{fc}").build().unwrap();

    // The non-ASCII character is encoded byte by byte over its UTF-8 form
    assert_eq!(query.to_odata_string(), "P?$filter=a%C3%BC");
}

#[test]
fn test_key_access_encoding_exact() {
    let query = QueryBuilder::by_key("Property", "ABC 123").build().unwrap();

    assert_eq!(query.to_odata_string(), "Property('ABC%20123')");
}

#[test]
fn test_key_access_select_then_expand_order() {
    let query = QueryBuilder::by_key("Property", "1")
        .expand(&["B"])
        .select(&["A"])
        .build()
        .unwrap();

    assert_eq!(query.to_odata_string(), "Property('1')?$select=A&$expand=B");
}

#[test]
fn test_setters_last_write_wins() {
    let query = QueryBuilder::new("Property")
        .filter("City eq 'Austin'")
        .filter("City eq 'Dallas'")
        .top(5)
        .top(7)
        .build()
        .unwrap();

    assert_eq!(
        query.to_odata_string(),
        "Property?$filter=City%20eq%20%27Dallas%27&$top=7"
    );
}

#[test]
fn test_order_by_direction_not_validated() {
    let query = QueryBuilder::new("Property")
        .order_by("City", "sideways")
        .build()
        .unwrap();

    assert_eq!(query.to_odata_string(), "Property?$orderby=City%20sideways");
}

#[test]
fn test_count_only_ignores_top_and_select() {
    let query = QueryBuilder::new("Property")
        .filter("City eq 'Austin'")
        .top(10)
        .select(&["A", "B"])
        .count()
        .build()
        .unwrap();

    assert_eq!(
        query.to_odata_string(),
        "Property/$count?$filter=City%20eq%20%27Austin%27"
    );
}

#[test]
fn test_count_only_bare() {
    let query = QueryBuilder::new("Property").count().build().unwrap();

    assert_eq!(query.to_odata_string(), "Property/$count");
}

#[test]
fn test_count_and_with_count_together_is_legal() {
    let query = QueryBuilder::new("Property")
        .with_count()
        .count()
        .build()
        .unwrap();

    // Count-only mode takes precedence at serialization time
    assert_eq!(query.to_odata_string(), "Property/$count");
}

#[test]
fn test_replication_top_limit_message() {
    let result = ReplicationQueryBuilder::new("Property").top(2001).build();

    match result {
        Err(ResoError::InvalidQuery(message)) => {
            assert!(message.contains("2000"));
            assert!(message.contains("2001"));
            assert_eq!(
                message,
                "Replication queries support maximum $top of 2000, got 2001"
            );
        }
        _ => panic!("Expected InvalidQuery error"),
    }
}

#[test]
fn test_replication_full_exact() {
    let query = ReplicationQueryBuilder::new("Property")
        .filter("City eq 'Austin'")
        .select(&["A", "B"])
        .top(2000)
        .build()
        .unwrap();

    assert_eq!(
        query.to_odata_string(),
        "Property/replication?$filter=City%20eq%20%27Austin%27&$select=A,B&$top=2000"
    );
}

#[test]
fn test_key_access_error_messages() {
    let cases: Vec<(Result<reso_client::Query, ResoError>, &str)> = vec![
        (
            QueryBuilder::by_key("P", "1").filter("x").build(),
            "Key access cannot be used with $filter",
        ),
        (
            QueryBuilder::by_key("P", "1").top(1).build(),
            "Key access cannot be used with $top",
        ),
        (
            QueryBuilder::by_key("P", "1").skip(1).build(),
            "Key access cannot be used with $skip",
        ),
        (
            QueryBuilder::by_key("P", "1").order_by("a", "asc").build(),
            "Key access cannot be used with $orderby",
        ),
        (
            QueryBuilder::by_key("P", "1").apply("x").build(),
            "Key access cannot be used with $apply",
        ),
        (
            QueryBuilder::by_key("P", "1").with_count().build(),
            "Key access cannot be used with $count",
        ),
        (
            QueryBuilder::by_key("P", "1").count().build(),
            "Key access cannot be used with $count",
        ),
    ];

    for (result, expected) in cases {
        match result {
            Err(ResoError::InvalidQuery(message)) => assert_eq!(message, expected),
            _ => panic!("Expected InvalidQuery error"),
        }
    }
}

#[test]
fn test_classifier_401_with_envelope() {
    let error = ResoError::from_status(401, r#"{"error":{"code":"X","message":"Y"}}"#);

    match error {
        ResoError::Unauthorized {
            message,
            status_code,
        } => {
            assert_eq!(message, "Y (code: X)");
            assert_eq!(status_code, 401);
        }
        _ => panic!("Expected Unauthorized error"),
    }
}

#[test]
fn test_classifier_400_unparseable_body() {
    let error = ResoError::from_status(400, "not json");

    match error {
        ResoError::ODataError {
            message,
            status_code,
        } => {
            assert_eq!(message, "not json");
            assert_eq!(status_code, 400);
        }
        _ => panic!("Expected ODataError error"),
    }
}

#[test]
fn test_classifier_truncates_long_body() {
    let body = "y".repeat(600);
    let error = ResoError::from_status(418, &body);

    match error {
        ResoError::ODataError {
            message,
            status_code,
        } => {
            let mut expected = "y".repeat(500);
            expected.push_str("... (truncated)");
            assert_eq!(message, expected);
            assert_eq!(status_code, 418);
        }
        _ => panic!("Expected ODataError error"),
    }
}

#[test]
fn test_parse_count_plain() {
    assert_eq!(parse_count("42").unwrap(), 42);
}

#[test]
fn test_parse_count_surrounding_whitespace() {
    assert_eq!(parse_count(" \t42\r\n").unwrap(), 42);
}

#[test]
fn test_parse_count_plus_sign() {
    assert_eq!(parse_count("+7").unwrap(), 7);
}

#[test]
fn test_parse_count_zero() {
    assert_eq!(parse_count("0").unwrap(), 0);
}

#[test]
fn test_parse_count_max_value() {
    assert_eq!(parse_count("18446744073709551615").unwrap(), u64::MAX);
}

#[test]
fn test_parse_count_overflow() {
    assert!(parse_count("18446744073709551616").is_err());
}

#[test]
fn test_parse_count_rejects_garbage() {
    let result = parse_count("abc");

    match result {
        Err(ResoError::Parse(message)) => {
            assert_eq!(message, "Failed to parse count 'abc'");
        }
        _ => panic!("Expected Parse error"),
    }
}

#[test]
fn test_parse_count_rejects_empty() {
    assert!(parse_count("").is_err());
    assert!(parse_count("   ").is_err());
    assert!(parse_count("+").is_err());
}

#[test]
fn test_parse_count_rejects_negative() {
    assert!(parse_count("-1").is_err());
}

#[test]
fn test_parse_count_rejects_inner_space() {
    assert!(parse_count("4 2").is_err());
}
