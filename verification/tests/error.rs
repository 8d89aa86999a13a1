use redis_connector::CacheError;
use redis_connector::ConnectionFailure;

#[test]
fn registry_errors_say_what_happened() {
    assert_eq!(
        CacheError::AlreadyInitialized.message(),
        "redis connection pool is already initialized"
    );
    assert_eq!(CacheError::NotInitialized.message(), "redis connection pool is not initialized");
}

#[test]
fn every_error_has_a_text() {
    let errors = vec![
        CacheError::Connection(ConnectionFailure::MalformedEndpoint { index: 3 }),
        CacheError::Connection(ConnectionFailure::IncompatibleEndpoints),
        CacheError::Connection(ConnectionFailure::InvalidPoolSize),
        CacheError::Connection(ConnectionFailure::Unreachable),
        CacheError::Connection(ConnectionFailure::ProbeFailed),
        CacheError::PoolExhausted,
        CacheError::AlreadyInitialized,
        CacheError::NotInitialized,
        CacheError::CacheRead,
        CacheError::CacheWrite,
        CacheError::Serialization,
    ];
    let texts: Vec<&str> = errors.iter().map(|error| error.message()).collect();
    assert_eq!(
        texts,
        vec![
            "redis endpoint is not a valid url",
            "redis endpoints cannot form one cluster client",
            "redis connection pool size must be greater than zero",
            "redis cluster is unreachable",
            "connection fail",
            "redis connection pool is exhausted",
            "redis connection pool is already initialized",
            "redis connection pool is not initialized",
            "redis read failed",
            "redis write failed",
            "cached payload could not be encoded or decoded",
        ]
    );
}

#[test]
fn only_missing_initialization_and_bad_payloads_are_defects() {
    assert!(CacheError::NotInitialized.is_defect());
    assert!(CacheError::Serialization.is_defect());
    assert!(!CacheError::PoolExhausted.is_defect());
    assert!(!CacheError::AlreadyInitialized.is_defect());
    assert!(!CacheError::CacheRead.is_defect());
    assert!(!CacheError::CacheWrite.is_defect());
    assert!(!CacheError::Connection(ConnectionFailure::Unreachable).is_defect());
    assert!(!CacheError::Connection(ConnectionFailure::ProbeFailed).is_defect());
    assert!(!CacheError::Connection(ConnectionFailure::InvalidPoolSize).is_defect());
    assert!(!CacheError::Connection(ConnectionFailure::IncompatibleEndpoints).is_defect());
    assert!(!CacheError::Connection(ConnectionFailure::MalformedEndpoint { index: 0 }).is_defect());
}
