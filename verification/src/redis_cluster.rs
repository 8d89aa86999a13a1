//! The connection manager of the pool: it is built from the cluster's seed
//! endpoints, and judges the liveness of the connections that it opened.

use redis::cluster::ClusterClient;
use redis::IntoConnectionInfo;
use redis::RedisError;
use vstd::prelude::*;

use crate::error::CacheError;
use crate::error::ConnectionFailure;

verus! {

/// The cluster client of the `redis` crate, carried as an opaque value.
#[verifier::external_type_specification]
#[verifier::external_body]
pub struct ExClusterClient(ClusterClient);

/// The error type of the `redis` crate, carried as an opaque value.
#[verifier::external_type_specification]
#[verifier::external_body]
pub struct ExRedisError(RedisError);

/// Whether the `redis` crate reads `host` as connection information: the
/// result of `IntoConnectionInfo::into_connection_info` on the string is
/// `Ok`.
pub uninterp spec fn endpoint_parses(host: Seq<char>) -> bool;

/// Whether the `redis` crate makes a cluster client of the seed list
/// `hosts`: the result of `ClusterClient::open` on the strings is `Ok`.
pub uninterp spec fn cluster_client_opens(hosts: Seq<Seq<char>>) -> bool;

/// Calls `IntoConnectionInfo::into_connection_info` of the `redis` crate on
/// `host` and tells whether it succeeded. The call parses the string as a
/// URL with one of the Redis schemes and reads the address, the database
/// and the credentials from it; it opens no connection and reads nothing
/// but the string. Trusted: the outcome is a function of the string alone,
/// which `endpoint_parses` names.
#[verifier::external_body]
fn endpoint_is_well_formed(host: &str) -> (well_formed: bool)
    ensures
        well_formed == endpoint_parses(host@),
{
    host.into_connection_info().is_ok()
}

/// Calls `ClusterClient::open` of the `redis` crate on the seed list. The
/// call parses each string as above and checks the list as a whole (no unix
/// socket, one password for all nodes); despite its name it opens no
/// connection. Trusted: whether it succeeds is a function of the strings
/// alone, which `cluster_client_opens` names.
#[verifier::external_body]
fn open_cluster_client(hosts: Vec<&'static str>) -> (opened: Result<ClusterClient, RedisError>)
    ensures
        (opened is Ok) == cluster_client_opens(hosts.deep_view()),
{
    ClusterClient::open(hosts)
}

/// Whether `index` is the place of the first endpoint of `hosts` that is
/// not a Redis URL.
pub open spec fn first_malformed(hosts: Seq<Seq<char>>, index: int) -> bool {
    &&& 0 <= index < hosts.len()
    &&& !endpoint_parses(hosts[index])
    &&& forall|before: int| 0 <= before < index ==> endpoint_parses(#[trigger] hosts[before])
}

/// Whether every endpoint of `hosts` is a Redis URL.
pub open spec fn all_well_formed(hosts: Seq<Seq<char>>) -> bool {
    forall|index: int| 0 <= index < hosts.len() ==> endpoint_parses(#[trigger] hosts[index])
}

/// Knows how to open one connection to the cluster and how to judge its
/// liveness. Its value is the ordered list of seed endpoints that its
/// client was made of.
pub struct RedisClusterConnectionManager {
    client: ClusterClient,
    endpoints: Ghost<Seq<Seq<char>>>,
}

impl View for RedisClusterConnectionManager {
    type V = Seq<Seq<char>>;

    closed spec fn view(&self) -> Seq<Seq<char>> {
        self.endpoints@
    }
}

impl RedisClusterConnectionManager {
    /// Validates the seed endpoints and makes the cluster client of them.
    ///
    /// Fails with `MalformedEndpoint` for the first endpoint that is not a
    /// Redis URL, if there is one, and with `IncompatibleEndpoints` if the
    /// cluster client refuses a list of well-formed endpoints. No connection
    /// is opened.
    pub fn new(info: Vec<&'static str>) -> (made: Result<RedisClusterConnectionManager, CacheError>)
        ensures
            match made {
                Ok(manager) => {
                    &&& all_well_formed(info.deep_view())
                    &&& cluster_client_opens(info.deep_view())
                    &&& manager@ == info.deep_view()
                },
                Err(CacheError::Connection(ConnectionFailure::MalformedEndpoint { index })) =>
                    first_malformed(info.deep_view(), index as int),
                Err(CacheError::Connection(ConnectionFailure::IncompatibleEndpoints)) => {
                    &&& all_well_formed(info.deep_view())
                    &&& !cluster_client_opens(info.deep_view())
                },
                Err(_) => false,
            },
    {
        let ghost hosts = info.deep_view();
        let mut index: usize = 0;
        while index < info.len()
            invariant
                hosts == info.deep_view(),
                index <= info.len(),
                forall|before: int| 0 <= before < index ==> endpoint_parses(#[trigger] hosts[before]),
            decreases info.len() - index,
        {
            if !endpoint_is_well_formed(info[index]) {
                return Err(CacheError::Connection(ConnectionFailure::MalformedEndpoint { index }));
            }
            index += 1;
        }
        match open_cluster_client(info) {
            Ok(client) => Ok(RedisClusterConnectionManager { client, endpoints: Ghost(hosts) }),
            Err(_) => Err(CacheError::Connection(ConnectionFailure::IncompatibleEndpoints)),
        }
    }

    /// Judges the outcome of a liveness probe on an existing connection: a
    /// probe that succeeded leaves the connection valid, one that failed is
    /// a connection failure.
    pub fn is_valid(&self, probe_succeeded: bool) -> (judged: Result<(), CacheError>)
        ensures
            judged == if probe_succeeded {
                Ok::<(), CacheError>(())
            } else {
                Err::<(), CacheError>(CacheError::Connection(ConnectionFailure::ProbeFailed))
            },
    {
        if probe_succeeded {
            Ok(())
        } else {
            Err(CacheError::Connection(ConnectionFailure::ProbeFailed))
        }
    }

    /// The cheap check for connections that are dead for certain. It never
    /// reports one: liveness is left to the probe behind
    /// [`RedisClusterConnectionManager::is_valid`].
    pub fn has_broken<C>(&self, connection: &mut C) -> (broken: bool)
        ensures
            !broken,
            *final(connection) == *old(connection),
    {
        false
    }

    /// The cluster client that the manager wraps.
    pub closed spec fn cluster_client(&self) -> ClusterClient {
        self.client
    }

    /// The cluster client, with which the caller opens connections.
    pub fn client(&self) -> (client: &ClusterClient)
        ensures
            *client == self.cluster_client(),
    {
        &self.client
    }
}

} // verus!
