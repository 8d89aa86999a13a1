//! Pooled access to a Redis cluster with a cache-aside read-through helper.
//!
//! The crate holds the decisions of the connector: how a setting is
//! validated, how the connection manager is built from the cluster's seed
//! endpoints, how the single pool of a process is registered, and how one
//! `get_or_set_with_expire` call proceeds from cache read to result. Network
//! round trips and awaits are performed by the caller, who reports their
//! outcomes back as plain values.

pub mod cache_aside;
pub mod error;
pub mod redis_cluster;
pub mod registry;
pub mod setting;

pub use error::CacheError;
pub use error::ConnectionFailure;
pub use redis_cluster::RedisClusterConnectionManager;
pub use registry::PoolRegistry;
pub use setting::PoolBlueprint;
pub use setting::Setting;
