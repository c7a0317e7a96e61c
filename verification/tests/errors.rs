use cozo_pool::cozodb::error::CozoError;

#[test]
fn each_kind_of_error_is_made_with_its_texts() {
    assert!(matches!(
        CozoError::connection_failed("a"),
        CozoError::ConnectionFailed { message } if message == "a"
    ));
    assert!(matches!(
        CozoError::query_failed("a", "q"),
        CozoError::QueryFailed { message, query } if message == "a" && query == "q"
    ));
    assert!(matches!(
        CozoError::transaction_failed("a"),
        CozoError::TransactionFailed { message } if message == "a"
    ));
    assert!(matches!(
        CozoError::resource_limit_exhausted("connections", 5, 7),
        CozoError::ResourceLimitExhausted { resource, used: 5, limit: 7 } if resource == "connections"
    ));
    assert!(matches!(
        CozoError::database_not_found("p"),
        CozoError::DatabaseNotFound { path } if path == "p"
    ));
    assert!(matches!(
        CozoError::invalid_configuration("a"),
        CozoError::InvalidConfiguration { message } if message == "a"
    ));
    assert!(matches!(
        CozoError::serialization_failed("a"),
        CozoError::SerializationFailed { message } if message == "a"
    ));
    assert!(matches!(CozoError::internal("a"), CozoError::Internal { message } if message == "a"));
}

#[test]
fn each_kind_of_error_in_words() {
    assert_eq!(CozoError::connection_failed("down").to_string(), "Connection failed: down");
    assert_eq!(
        CozoError::query_failed("bad", "SELECT").to_string(),
        "Query execution failed: bad"
    );
    assert_eq!(CozoError::transaction_failed("t").to_string(), "Transaction failed: t");
    assert_eq!(
        CozoError::resource_limit_exhausted("connections", 5, 5).to_string(),
        "Resource limit exhausted: connections (5/5)"
    );
    assert_eq!(
        CozoError::resource_limit_exhausted("x", 0, 1234567890).to_string(),
        "Resource limit exhausted: x (0/1234567890)"
    );
    assert_eq!(CozoError::database_not_found("./db").to_string(), "Database not found: ./db");
    assert_eq!(CozoError::invalid_configuration("c").to_string(), "Invalid configuration: c");
    assert_eq!(CozoError::serialization_failed("s").to_string(), "Serialization failed: s");
    assert_eq!(CozoError::internal("").to_string(), "Internal error: ");
}

#[test]
fn a_copy_of_an_error_holds_the_same() {
    let error = CozoError::resource_limit_exhausted("connections", 3, 4);
    assert_eq!(error.clone().to_string(), error.to_string());
    let error = CozoError::query_failed("m", "q");
    assert!(matches!(
        error.clone(),
        CozoError::QueryFailed { message, query } if message == "m" && query == "q"
    ));
}
