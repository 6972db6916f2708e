use limen::compute::ModelArtifact;
use limen::edge::spsc_concurrent::ConcurrentQueue;
use limen::edge::spsc_vecdeque::HeapRing;
use limen::errors::RuntimeError;
use limen::message::Message;
use limen::registry::{ComputeBackendFactory, PlatformBackendFactory, Registries, Registry, SensorStreamFactory};

struct Tract;
impl ComputeBackendFactory for Tract {}
struct Sim;
impl SensorStreamFactory for Sim {}
struct Linux;
impl PlatformBackendFactory for Linux {}

#[test]
fn registries_refuse_duplicate_keys() {
    let mut r = Registries::new();
    assert_eq!(r.register_compute_backend("tract", Box::new(Tract)), Ok(()));
    assert_eq!(
        r.register_compute_backend("tract", Box::new(Tract)),
        Err(RuntimeError::InitializationFailed("duplicate compute backend key: tract".to_string()))
    );
    assert!(r.compute_backends.contains_key("tract"));
    assert!(!r.compute_backends.contains_key("onnx"));
    assert_eq!(r.register_sensor_stream("sim", Box::new(Sim)), Ok(()));
    assert_eq!(
        r.register_sensor_stream("sim", Box::new(Sim)),
        Err(RuntimeError::InitializationFailed("duplicate sensor stream key: sim".to_string()))
    );
    assert_eq!(r.register_platform("linux", Box::new(Linux)), Ok(()));
    assert!(!r.sensor_streams.contains_key("tract"));
}

#[test]
fn generic_registry_keeps_first_registration() {
    let mut reg: Registry<u32> = Registry::new();
    assert_eq!(reg.register("thing", "a", 1), Ok(()));
    assert_eq!(reg.register("thing", "b", 2), Ok(()));
    assert_eq!(
        reg.register("thing", "a", 3),
        Err(RuntimeError::InitializationFailed("duplicate thing key: a".to_string()))
    );
    assert!(reg.contains_key("b"));
    assert_eq!(reg.get("a"), Some(&1));
    assert_eq!(reg.get("b"), Some(&2));
    assert_eq!(reg.get("c"), None);
}

#[test]
fn model_artifact_and_shared_queue_handles() {
    let a = ModelArtifact::from_bytes(vec![1, 2, 3]);
    assert_eq!(a.bytes.as_slice(), &[1u8, 2, 3]);
    assert!(a.label.is_none());

    let q: ConcurrentQueue<HeapRing<Message<u32>>> = ConcurrentQueue::new(HeapRing::with_capacity(4));
    let a1 = q.arc();
    let a2 = q.clone().arc();
    assert!(std::sync::Arc::ptr_eq(&a1, &a2));
    let q2 = ConcurrentQueue::from_arc(a1.clone());
    assert!(std::sync::Arc::ptr_eq(&q2.arc(), &a1));
}
