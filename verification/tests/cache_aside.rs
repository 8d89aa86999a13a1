use std::cell::Cell;
use std::cell::RefCell;

use redis_connector::cache_aside::CacheAside;
use redis_connector::cache_aside::Event;
use redis_connector::cache_aside::Phase;
use redis_connector::cache_aside::ReadFailure;
use redis_connector::CacheError;
use redis_connector::ConnectionFailure;

/// A cache and a loader that count their calls and fail on demand.
struct World {
    read: Result<Option<String>, (CacheError, String)>,
    loaded: Result<u32, String>,
    encodable: bool,
    write_fails: bool,
    reads: Cell<u32>,
    loads: Cell<u32>,
    writes: RefCell<Vec<(String, String, usize)>>,
    warnings: RefCell<Vec<String>>,
}

fn world(read: Result<Option<String>, (CacheError, String)>, loaded: Result<u32, String>) -> World {
    World {
        read,
        loaded,
        encodable: true,
        write_fails: false,
        reads: Cell::new(0),
        loads: Cell::new(0),
        writes: RefCell::new(Vec::new()),
        warnings: RefCell::new(Vec::new()),
    }
}

/// Runs one call to its end, doing what each phase asks for.
fn drive(world: &World, key: &str, expire_seconds: usize) -> Result<u32, String> {
    let mut machine: CacheAside<u32, String> = CacheAside::start(key.to_string(), expire_seconds);
    for _ in 0..16 {
        let event = match machine.phase() {
            Phase::ReadCache => {
                world.reads.set(world.reads.get() + 1);
                Event::CacheRead(match &world.read {
                    Ok(found) => Ok(found.clone()),
                    Err((kind, cause)) => Err(ReadFailure { kind: *kind, cause: cause.clone() }),
                })
            }
            Phase::Decode { payload } => {
                Event::Decoded(payload.parse::<u32>().map_err(|_| format!("cannot decode {}", payload)))
            }
            Phase::Load { warning, .. } => {
                if let Some(warning) = warning {
                    world.warnings.borrow_mut().push(warning.clone());
                }
                world.loads.set(world.loads.get() + 1);
                Event::Loaded(world.loaded.clone())
            }
            Phase::Encode { value } => Event::Encoded(if world.encodable {
                Ok(value.to_string())
            } else {
                Err(format!("cannot encode {}", value))
            }),
            Phase::Populate { payload, .. } => {
                world.writes.borrow_mut().push((
                    machine.key().to_string(),
                    payload.clone(),
                    machine.expire_seconds(),
                ));
                Event::Populated(if world.write_fails {
                    Err("write refused".to_string())
                } else {
                    Ok(())
                })
            }
            Phase::Done { .. } => break,
        };
        machine = machine.step(event);
    }
    match machine.into_phase() {
        Phase::Done { result, warning } => {
            if let Some(warning) = warning {
                world.warnings.borrow_mut().push(warning);
            }
            result
        }
        _ => panic!("the call did not come to an end"),
    }
}

#[test]
fn a_call_starts_by_reading_the_cache() {
    let machine: CacheAside<u32, String> = CacheAside::start("user:1".to_string(), 60);
    assert_eq!(machine.phase(), &Phase::ReadCache);
    assert_eq!(machine.key(), "user:1");
    assert_eq!(machine.expire_seconds(), 60);
    assert!(!machine.is_done());
}

#[test]
fn hit_returns_the_decoded_value_and_never_loads() {
    let world = world(Ok(Some("41".to_string())), Ok(7));
    assert_eq!(drive(&world, "answer", 30), Ok(41));
    assert_eq!(world.reads.get(), 1);
    assert_eq!(world.loads.get(), 0);
    assert!(world.writes.borrow().is_empty());
    assert!(world.warnings.borrow().is_empty());
}

#[test]
fn hit_hands_the_stored_payload_to_the_decoder() {
    let machine: CacheAside<u32, String> = CacheAside::start("k".to_string(), 5);
    let machine = machine.step(Event::CacheRead(Ok(Some("12".to_string()))));
    assert_eq!(machine.phase(), &Phase::Decode { payload: "12".to_string() });
    let machine = machine.step(Event::Decoded(Ok(12)));
    assert!(machine.is_done());
    assert_eq!(machine.into_phase(), Phase::Done { result: Ok(12), warning: None });
}

#[test]
fn hit_with_a_payload_that_does_not_decode_is_a_hard_error() {
    let world = world(Ok(Some("not a number".to_string())), Ok(7));
    assert_eq!(drive(&world, "answer", 30), Err("cannot decode not a number".to_string()));
    assert_eq!(world.loads.get(), 0);
    assert!(world.writes.borrow().is_empty());
}

#[test]
fn miss_loads_once_and_caches_the_value_with_the_expiry() {
    let world = world(Ok(None), Ok(7));
    assert_eq!(drive(&world, "answer", 30), Ok(7));
    assert_eq!(world.reads.get(), 1);
    assert_eq!(world.loads.get(), 1);
    assert_eq!(*world.writes.borrow(), vec![("answer".to_string(), "7".to_string(), 30)]);
    assert!(world.warnings.borrow().is_empty());
}

#[test]
fn miss_returns_the_loaded_value_when_the_write_fails() {
    let mut world = world(Ok(None), Ok(7));
    world.write_fails = true;
    assert_eq!(drive(&world, "answer", 30), Ok(7));
    assert_eq!(world.loads.get(), 1);
    assert_eq!(world.writes.borrow().len(), 1);
    assert_eq!(*world.warnings.borrow(), vec!["write refused".to_string()]);
}

#[test]
fn miss_with_a_failing_loader_returns_its_error_and_writes_nothing() {
    let world = world(Ok(None), Err("source is down".to_string()));
    assert_eq!(drive(&world, "answer", 30), Err("source is down".to_string()));
    assert_eq!(world.loads.get(), 1);
    assert!(world.writes.borrow().is_empty());
}

#[test]
fn miss_with_a_value_that_does_not_encode_is_a_hard_error() {
    let mut world = world(Ok(None), Ok(7));
    world.encodable = false;
    assert_eq!(drive(&world, "answer", 30), Err("cannot encode 7".to_string()));
    assert_eq!(world.loads.get(), 1);
    assert!(world.writes.borrow().is_empty());
}

#[test]
fn miss_asks_for_the_loader_then_the_encoder_then_the_write() {
    let machine: CacheAside<u32, String> = CacheAside::start("k".to_string(), 5);
    let machine = machine.step(Event::CacheRead(Ok(None)));
    assert_eq!(machine.phase(), &Phase::Load { populate: true, warning: None });
    let machine = machine.step(Event::Loaded(Ok(3)));
    assert_eq!(machine.phase(), &Phase::Encode { value: 3 });
    let machine = machine.step(Event::Encoded(Ok("3".to_string())));
    assert_eq!(machine.phase(), &Phase::Populate { value: 3, payload: "3".to_string() });
    assert_eq!(machine.key(), "k");
    assert_eq!(machine.expire_seconds(), 5);
    let machine = machine.step(Event::Populated(Ok(())));
    assert_eq!(machine.into_phase(), Phase::Done { result: Ok(3), warning: None });
}

#[test]
fn exhausted_pool_falls_back_to_the_loader_without_populating() {
    let world = world(Err((CacheError::PoolExhausted, "timed out".to_string())), Ok(7));
    assert_eq!(drive(&world, "answer", 30), Ok(7));
    assert_eq!(world.loads.get(), 1);
    assert!(world.writes.borrow().is_empty());
    assert_eq!(*world.warnings.borrow(), vec!["timed out".to_string()]);
}

#[test]
fn unreachable_cluster_falls_back_to_the_loader_without_populating() {
    let kind = CacheError::Connection(ConnectionFailure::Unreachable);
    let world = world(Err((kind, "no route".to_string())), Ok(9));
    assert_eq!(drive(&world, "answer", 30), Ok(9));
    assert_eq!(world.loads.get(), 1);
    assert!(world.writes.borrow().is_empty());
    assert_eq!(*world.warnings.borrow(), vec!["no route".to_string()]);
}

#[test]
fn failed_read_command_falls_back_to_the_loader() {
    let world = world(Err((CacheError::CacheRead, "MOVED".to_string())), Ok(9));
    assert_eq!(drive(&world, "answer", 30), Ok(9));
    assert_eq!(world.loads.get(), 1);
    assert!(world.writes.borrow().is_empty());
}

#[test]
fn outage_with_a_failing_loader_returns_the_loaders_error() {
    let world = world(
        Err((CacheError::PoolExhausted, "timed out".to_string())),
        Err("source is down".to_string()),
    );
    assert_eq!(drive(&world, "answer", 30), Err("source is down".to_string()));
    assert_eq!(world.loads.get(), 1);
}

#[test]
fn read_before_initialization_ends_the_call_without_loading() {
    let world = world(Err((CacheError::NotInitialized, "no pool".to_string())), Ok(7));
    assert_eq!(drive(&world, "answer", 30), Err("no pool".to_string()));
    assert_eq!(world.loads.get(), 0);
    assert!(world.writes.borrow().is_empty());
    assert!(world.warnings.borrow().is_empty());
}

#[test]
fn an_event_that_is_not_awaited_changes_nothing() {
    let machine: CacheAside<u32, String> = CacheAside::start("k".to_string(), 5);
    let machine = machine.step(Event::Loaded(Ok(1)));
    assert_eq!(machine.phase(), &Phase::ReadCache);
    let machine = machine.step(Event::CacheRead(Ok(None)));
    let machine = machine.step(Event::CacheRead(Ok(Some("9".to_string()))));
    assert_eq!(machine.phase(), &Phase::Load { populate: true, warning: None });
    let machine = machine.step(Event::Populated(Ok(())));
    assert_eq!(machine.phase(), &Phase::Load { populate: true, warning: None });
}

#[test]
fn a_finished_call_keeps_its_result() {
    let machine: CacheAside<u32, String> = CacheAside::start("k".to_string(), 5);
    let machine = machine.step(Event::CacheRead(Ok(Some("2".to_string()))));
    let machine = machine.step(Event::Decoded(Ok(2)));
    let machine = machine.step(Event::Loaded(Ok(8)));
    let machine = machine.step(Event::CacheRead(Ok(None)));
    assert_eq!(machine.into_phase(), Phase::Done { result: Ok(2), warning: None });
}
