use redis_connector::CacheError;
use redis_connector::ConnectionFailure;
use redis_connector::PoolBlueprint;
use redis_connector::Setting;

fn setting(hosts: Vec<&'static str>, max_connections: u32) -> Setting {
    match Setting::new(hosts, max_connections) {
        Ok(setting) => setting,
        Err(error) => panic!("{}", error.message()),
    }
}

#[test]
fn a_setting_keeps_its_endpoints_and_pool_size() {
    let setting = setting(vec!["redis://127.0.0.1:7000", "redis://127.0.0.1:7001"], 2);
    assert_eq!(setting.hosts(), &vec!["redis://127.0.0.1:7000", "redis://127.0.0.1:7001"]);
    assert_eq!(setting.max_connections(), 2);
}

#[test]
fn a_pool_size_of_zero_is_refused() {
    let made = Setting::new(vec!["redis://127.0.0.1:7000"], 0);
    assert_eq!(made.err(), Some(CacheError::Connection(ConnectionFailure::InvalidPoolSize)));
}

#[test]
fn a_pool_size_of_one_is_accepted() {
    assert_eq!(setting(vec!["redis://127.0.0.1:7000"], 1).max_connections(), 1);
}

#[test]
fn the_largest_pool_size_is_accepted() {
    assert_eq!(setting(Vec::new(), u32::MAX).max_connections(), u32::MAX);
}

#[test]
fn a_setting_does_not_inspect_its_endpoints() {
    assert_eq!(setting(vec!["nonsense"], 3).hosts(), &vec!["nonsense"]);
}

#[test]
fn a_blueprint_takes_its_size_from_the_setting() {
    let prepared = PoolBlueprint::from_setting(setting(vec!["redis://127.0.0.1:7000"], 2));
    let blueprint = match prepared {
        Ok(blueprint) => blueprint,
        Err(error) => panic!("{}", error.message()),
    };
    assert_eq!(blueprint.max_size(), 2);
    assert_eq!(blueprint.manager().is_valid(true), Ok(()));
    let (manager, max_size) = blueprint.into_parts();
    assert_eq!(max_size, 2);
    assert_eq!(manager.is_valid(true), Ok(()));
}

#[test]
fn a_blueprint_fails_on_a_malformed_endpoint() {
    let prepared =
        PoolBlueprint::from_setting(setting(vec!["redis://127.0.0.1:7000", "nonsense"], 2));
    assert_eq!(
        prepared.err().map(|error| error.message()),
        Some("redis endpoint is not a valid url")
    );
}

#[test]
fn a_blueprint_fails_on_incompatible_endpoints() {
    let prepared = PoolBlueprint::from_setting(setting(
        vec!["redis://:one@127.0.0.1:7000", "redis://:two@127.0.0.1:7001"],
        2,
    ));
    assert!(matches!(
        prepared,
        Err(CacheError::Connection(ConnectionFailure::IncompatibleEndpoints))
    ));
}
