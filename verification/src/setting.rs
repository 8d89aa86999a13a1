//! The configuration of the connector, and the pool that it asks for.

use vstd::prelude::*;

use crate::error::CacheError;
use crate::error::ConnectionFailure;
use crate::redis_cluster::all_well_formed;
use crate::redis_cluster::cluster_client_opens;
use crate::redis_cluster::first_malformed;
use crate::redis_cluster::RedisClusterConnectionManager;

verus! {

/// The seed endpoints of the cluster, in order, and the maximum number of
/// connections of the pool, which is at least one.
#[derive(Debug)]
pub struct Setting {
    hosts: Vec<&'static str>,
    max_connections: u32,
}

/// The mathematical value of a [`Setting`].
pub struct SettingModel {
    pub hosts: Seq<Seq<char>>,
    pub max_connections: nat,
}

impl View for Setting {
    type V = SettingModel;

    closed spec fn view(&self) -> SettingModel {
        SettingModel { hosts: self.hosts.deep_view(), max_connections: self.max_connections as nat }
    }
}

impl Setting {
    #[verifier::type_invariant]
    spec fn pool_size_is_positive(self) -> bool {
        self.max_connections >= 1
    }

    /// A setting for the seed endpoints `hosts` and a pool of at most
    /// `max_connections` connections. A pool size of zero is refused with
    /// `InvalidPoolSize`. The endpoints are not inspected here.
    pub fn new(hosts: Vec<&'static str>, max_connections: u32) -> (made: Result<Setting, CacheError>)
        ensures
            match made {
                Ok(setting) => {
                    &&& max_connections >= 1
                    &&& setting@ == (SettingModel {
                        hosts: hosts.deep_view(),
                        max_connections: max_connections as nat,
                    })
                },
                Err(error) => {
                    &&& max_connections == 0
                    &&& error == CacheError::Connection(ConnectionFailure::InvalidPoolSize)
                },
            },
    {
        if max_connections == 0 {
            Err(CacheError::Connection(ConnectionFailure::InvalidPoolSize))
        } else {
            Ok(Setting { hosts, max_connections })
        }
    }

    /// The seed endpoints, in order.
    pub fn hosts(&self) -> (hosts: &Vec<&'static str>)
        ensures
            hosts.deep_view() == self@.hosts,
    {
        &self.hosts
    }

    /// The maximum number of connections of the pool.
    pub fn max_connections(&self) -> (max_connections: u32)
        ensures
            max_connections == self@.max_connections,
            max_connections >= 1,
    {
        proof {
            use_type_invariant(self);
        }
        self.max_connections
    }
}

/// What a connection pool is built from: the connection manager and the
/// maximum number of connections, which is at least one.
pub struct PoolBlueprint {
    manager: RedisClusterConnectionManager,
    max_size: u32,
}

/// The mathematical value of a [`PoolBlueprint`]: the seed endpoints of its
/// manager and the maximum number of connections.
pub struct PoolBlueprintModel {
    pub endpoints: Seq<Seq<char>>,
    pub max_size: nat,
}

impl View for PoolBlueprint {
    type V = PoolBlueprintModel;

    closed spec fn view(&self) -> PoolBlueprintModel {
        PoolBlueprintModel { endpoints: self.manager@, max_size: self.max_size as nat }
    }
}

impl PoolBlueprint {
    #[verifier::type_invariant]
    spec fn max_size_is_positive(self) -> bool {
        self.max_size >= 1
    }

    /// Prepares the pool that `setting` asks for: the manager is made of the
    /// setting's endpoints, the maximum size is the setting's. Fails as
    /// [`RedisClusterConnectionManager::new`] does on those endpoints. No
    /// connection is opened.
    pub fn from_setting(setting: Setting) -> (prepared: Result<PoolBlueprint, CacheError>)
        ensures
            match prepared {
                Ok(blueprint) => {
                    &&& all_well_formed(setting@.hosts)
                    &&& cluster_client_opens(setting@.hosts)
                    &&& blueprint@ == (PoolBlueprintModel {
                        endpoints: setting@.hosts,
                        max_size: setting@.max_connections,
                    })
                    &&& blueprint@.max_size >= 1
                },
                Err(CacheError::Connection(ConnectionFailure::MalformedEndpoint { index })) =>
                    first_malformed(setting@.hosts, index as int),
                Err(CacheError::Connection(ConnectionFailure::IncompatibleEndpoints)) => {
                    &&& all_well_formed(setting@.hosts)
                    &&& !cluster_client_opens(setting@.hosts)
                },
                Err(_) => false,
            },
    {
        proof {
            use_type_invariant(&setting);
        }
        let Setting { hosts, max_connections } = setting;
        match RedisClusterConnectionManager::new(hosts) {
            Ok(manager) => Ok(PoolBlueprint { manager, max_size: max_connections }),
            Err(error) => Err(error),
        }
    }

    /// The maximum number of connections of the pool.
    pub fn max_size(&self) -> (max_size: u32)
        ensures
            max_size == self@.max_size,
            max_size >= 1,
    {
        proof {
            use_type_invariant(self);
        }
        self.max_size
    }

    /// The connection manager of the pool.
    pub fn manager(&self) -> (manager: &RedisClusterConnectionManager)
        ensures
            manager@ == self@.endpoints,
    {
        &self.manager
    }

    /// Hands out the connection manager and the maximum size.
    pub fn into_parts(self) -> (parts: (RedisClusterConnectionManager, u32))
        ensures
            parts.0@ == self@.endpoints,
            parts.1 == self@.max_size,
            parts.1 >= 1,
    {
        proof {
            use_type_invariant(&self);
        }
        (self.manager, self.max_size)
    }
}

} // verus!
