//! Error kinds of the connector.

use vstd::prelude::*;

verus! {

/// Why a connection to the cluster could not be opened or validated.
#[derive(Clone, Copy, Debug, PartialEq, Eq, Structural)]
pub enum ConnectionFailure {
    /// The endpoint at `index` of the seed list is not a Redis URL.
    MalformedEndpoint { index: usize },
    /// Every endpoint is a Redis URL, but the cluster client refuses the
    /// list as a whole.
    IncompatibleEndpoints,
    /// The maximum pool size is zero.
    InvalidPoolSize,
    /// No seed node could be reached, or the topology could not be resolved.
    Unreachable,
    /// The liveness probe on an existing connection failed.
    ProbeFailed,
}

/// The error kinds that the connector reports.
#[derive(Clone, Copy, Debug, PartialEq, Eq, Structural)]
pub enum CacheError {
    /// A connection could not be opened or validated.
    Connection(ConnectionFailure),
    /// No connection became available within the pool's acquire timeout.
    PoolExhausted,
    /// The pool registry already holds a pool.
    AlreadyInitialized,
    /// The pool registry holds no pool yet.
    NotInitialized,
    /// The cluster failed a read command.
    CacheRead,
    /// The cluster failed a write command.
    CacheWrite,
    /// A payload could not be encoded or decoded.
    Serialization,
}

impl CacheError {
    /// Whether the error signals a defect of the program or its deployment
    /// rather than an outage of the cache. A defect is never downgraded to a
    /// fallback.
    pub open spec fn spec_is_defect(&self) -> bool {
        *self is NotInitialized || *self is Serialization
    }

    /// The text of the error, as a sequence of characters.
    pub open spec fn message_text(&self) -> Seq<char> {
        match *self {
            CacheError::Connection(ConnectionFailure::MalformedEndpoint { .. }) =>
                "redis endpoint is not a valid url"@,
            CacheError::Connection(ConnectionFailure::IncompatibleEndpoints) =>
                "redis endpoints cannot form one cluster client"@,
            CacheError::Connection(ConnectionFailure::InvalidPoolSize) =>
                "redis connection pool size must be greater than zero"@,
            CacheError::Connection(ConnectionFailure::Unreachable) => "redis cluster is unreachable"@,
            CacheError::Connection(ConnectionFailure::ProbeFailed) => "connection fail"@,
            CacheError::PoolExhausted => "redis connection pool is exhausted"@,
            CacheError::AlreadyInitialized => "redis connection pool is already initialized"@,
            CacheError::NotInitialized => "redis connection pool is not initialized"@,
            CacheError::CacheRead => "redis read failed"@,
            CacheError::CacheWrite => "redis write failed"@,
            CacheError::Serialization => "cached payload could not be encoded or decoded"@,
        }
    }

    /// Returns whether the error is a defect.
    #[verifier::when_used_as_spec(spec_is_defect)]
    pub fn is_defect(&self) -> (defect: bool)
        ensures
            defect == self.spec_is_defect(),
    {
        match self {
            CacheError::NotInitialized => true,
            CacheError::Serialization => true,
            _ => false,
        }
    }

    /// Returns the text of the error.
    pub fn message(&self) -> (text: &'static str)
        ensures
            text@ == self.message_text(),
    {
        match self {
            CacheError::Connection(ConnectionFailure::MalformedEndpoint { .. }) =>
                "redis endpoint is not a valid url",
            CacheError::Connection(ConnectionFailure::IncompatibleEndpoints) =>
                "redis endpoints cannot form one cluster client",
            CacheError::Connection(ConnectionFailure::InvalidPoolSize) =>
                "redis connection pool size must be greater than zero",
            CacheError::Connection(ConnectionFailure::Unreachable) => "redis cluster is unreachable",
            CacheError::Connection(ConnectionFailure::ProbeFailed) => "connection fail",
            CacheError::PoolExhausted => "redis connection pool is exhausted",
            CacheError::AlreadyInitialized => "redis connection pool is already initialized",
            CacheError::NotInitialized => "redis connection pool is not initialized",
            CacheError::CacheRead => "redis read failed",
            CacheError::CacheWrite => "redis write failed",
            CacheError::Serialization => "cached payload could not be encoded or decoded",
        }
    }
}

} // verus!
