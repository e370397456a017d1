use simple_fps::cache::Cache;
use simple_fps::instance::InstanceController;

#[test]
fn cache_emits_value_once() {
    let mut c = Cache::new(7i64);
    assert_eq!(c.cache(), Some(7));
    assert_eq!(c.cache(), None);
    assert_eq!(c.cache(), None);
}

#[test]
fn cache_emits_again_after_get() {
    let mut c = Cache::new(7i64);
    assert_eq!(c.cache(), Some(7));
    assert_eq!(c.cache(), None);
    // Taking the handle marks the value changed, even without a write.
    let _ = c.get();
    assert_eq!(c.cache(), Some(7));
    assert_eq!(c.cache(), None);
}

#[test]
fn cache_emits_mutated_value() {
    let mut c = Cache::new(1i64);
    assert_eq!(c.cache(), Some(1));
    *c.get() = 2;
    assert_eq!(c.cache(), Some(2));
    assert_eq!(c.cache(), None);
}

#[test]
fn cache_holds_instance_controllers() {
    let mut c = Cache::new(InstanceController::default());
    let first = c.cache();
    assert!(first.is_some());
    assert_eq!(first.unwrap(), InstanceController::default());
    assert_eq!(c.cache(), None);
}
