//! Registries of named factories used to wire a runtime from its configuration.
//!
//! Each registry maps a key to one factory; a key can be registered once.

use vstd::prelude::*;
use vstd::string::StringExecFns;
use crate::errors::RuntimeError;

verus! {

/// A factory of compute backends.
pub trait ComputeBackendFactory {}

/// A factory of sensor streams.
pub trait SensorStreamFactory {}

/// A factory of preprocessors.
pub trait PreprocessorFactory {}

/// A factory of postprocessors.
pub trait PostprocessorFactory {}

/// A factory of output sinks.
pub trait OutputSinkFactory {}

/// A factory of platform backends.
pub trait PlatformBackendFactory {}

/// The refusal message for a key already present: `duplicate {kind} key: {key}`.
fn duplicate_key_message(kind: &str, key: &str) -> (m: String)
    ensures
        m@ == "duplicate "@ + kind@ + " key: "@ + key@,
{
    let mut m = String::from_str("duplicate ");
    m.append(kind);
    m.append(" key: ");
    m.append(key);
    m
}

/// Whether `entries` holds an entry whose key reads `k`.
pub open spec fn has_key<F>(entries: Seq<(Seq<char>, F)>, k: Seq<char>) -> bool {
    exists|i: int| 0 <= i < entries.len() && (#[trigger] entries[i]).0 == k
}

/// No two entries share a key.
pub open spec fn keys_unique<F>(entries: Seq<(Seq<char>, F)>) -> bool {
    forall|i: int, j: int| 0 <= i < j < entries.len() ==> (#[trigger] entries[i]).0 != (#[trigger] entries[j]).0
}

/// The outcome of registering `factory` under `key` in a registry of `kind`:
/// refused with a message when the key is taken (registry unchanged), otherwise
/// appended.
pub open spec fn registration<F>(
    before: Seq<(Seq<char>, F)>,
    after: Seq<(Seq<char>, F)>,
    kind: Seq<char>,
    key: Seq<char>,
    factory: F,
    r: Result<(), RuntimeError>,
) -> bool {
    &&& has_key(before, key) ==> {
        &&& after == before
        &&& r matches Err(RuntimeError::InitializationFailed(m)) && m@ == "duplicate "@ + kind + " key: "@ + key
    }
    &&& !has_key(before, key) ==> {
        &&& r is Ok
        &&& after == before.push((key, factory))
    }
}

/// The keys of `entries`, in registration order.
pub open spec fn keys_of<F>(entries: Seq<(Seq<char>, F)>) -> Seq<Seq<char>> {
    entries.map_values(|e: (Seq<char>, F)| e.0)
}

/// The registration outcome seen through the keys alone: a taken key is refused
/// and nothing changes; a fresh key is accepted and appended, one factory more.
pub open spec fn registered_keys<F>(
    before: Seq<(Seq<char>, F)>,
    after: Seq<(Seq<char>, F)>,
    key: Seq<char>,
    r: Result<(), RuntimeError>,
) -> bool {
    &&& has_key(before, key) ==> r is Err && keys_of(after) == keys_of(before) && after.len() == before.len()
    &&& !has_key(before, key) ==> r is Ok && keys_of(after) == keys_of(before).push(key) && after.len() == before.len() + 1
}

/// Named factories of one kind, in registration order, each key at most once.
///
/// The entries are kept as `(key, factory)` pairs in a vector, not in a sorted
/// map: lookups compare keys in turn, and the order is that of registration.
pub struct Registry<F> {
    entries: Vec<(String, F)>,
}

impl<F> Registry<F> {
    /// The entries with their keys as character sequences.
    pub closed spec fn entries(&self) -> Seq<(Seq<char>, F)> {
        self.entries@.map_values(|e: (String, F)| (e.0@, e.1))
    }

    /// No key is registered twice.
    #[verifier::type_invariant]
    closed spec fn unique_keys(&self) -> bool {
        keys_unique(self.entries())
    }

    /// An empty registry.
    pub fn new() -> (r: Self)
        ensures
            r.entries().len() == 0,
    {
        Registry { entries: Vec::new() }
    }

    /// Whether `key` is registered.
    pub fn contains_key(&self, key: &str) -> (b: bool)
        ensures
            b == has_key(self.entries(), key@),
    {
        let k = key.to_owned();
        let mut i: usize = 0;
        while i < self.entries.len()
            invariant
                0 <= i <= self.entries@.len(),
                k@ == key@,
                forall|j: int| 0 <= j < i ==> (#[trigger] self.entries()[j]).0 != key@,
            decreases self.entries@.len() - i,
        {
            if self.entries[i].0 == k {
                assert(self.entries()[i as int].0 == key@);
                return true;
            }
            i = i + 1;
        }
        false
    }

    /// The factory registered under `key`, if any.
    pub fn get(&self, key: &str) -> (r: Option<&F>)
        ensures
            keys_unique(self.entries()),
            r is Some <==> has_key(self.entries(), key@),
            r matches Some(f) ==> exists|i: int|
                0 <= i < self.entries().len() && (#[trigger] self.entries()[i]).0 == key@ && self.entries()[i].1 == *f,
    {
        proof {
            use_type_invariant(self);
        }
        let k = key.to_owned();
        let mut i: usize = 0;
        while i < self.entries.len()
            invariant
                0 <= i <= self.entries@.len(),
                keys_unique(self.entries()),
                k@ == key@,
                forall|j: int| 0 <= j < i ==> (#[trigger] self.entries()[j]).0 != key@,
            decreases self.entries@.len() - i,
        {
            if self.entries[i].0 == k {
                assert(self.entries()[i as int].0 == key@);
                assert(self.entries()[i as int].1 == self.entries@[i as int].1);
                return Some(&self.entries[i].1);
            }
            i = i + 1;
        }
        None
    }

    /// Register `factory` under `key`; a key already present is refused with a
    /// message naming `kind` and the key, and the registry is left unchanged.
    pub fn register(&mut self, kind: &str, key: &str, factory: F) -> (r: Result<(), RuntimeError>)
        ensures
            keys_unique(final(self).entries()),
            registration(old(self).entries(), final(self).entries(), kind@, key@, factory, r),
            registered_keys(old(self).entries(), final(self).entries(), key@, r),
    {
        proof {
            use_type_invariant(&*self);
        }
        if self.contains_key(key) {
            return Err(RuntimeError::InitializationFailed(duplicate_key_message(kind, key)));
        }
        let k = key.to_owned();
        proof {
            lemma_push_keeps_keys_unique(self.entries@, k, factory);
        }
        let mut es: Vec<(String, F)> = Vec::new();
        std::mem::swap(&mut es, &mut self.entries);
        es.push((k, factory));
        self.entries = es;
        proof {
            assert(self.entries() =~= old(self).entries().push((key@, factory)));
            assert(keys_of(self.entries()) =~= keys_of(old(self).entries()).push(key@));
        }
        Ok(())
    }
}

/// Appending an entry under a fresh key keeps the keys distinct.
proof fn lemma_push_keeps_keys_unique<F>(entries: Seq<(String, F)>, k: String, f: F)
    requires
        keys_unique(entries.map_values(|e: (String, F)| (e.0@, e.1))),
        !has_key(entries.map_values(|e: (String, F)| (e.0@, e.1)), k@),
    ensures
        keys_unique(entries.push((k, f)).map_values(|e: (String, F)| (e.0@, e.1))),
{
    let old_v = entries.map_values(|e: (String, F)| (e.0@, e.1));
    let new_v = entries.push((k, f)).map_values(|e: (String, F)| (e.0@, e.1));
    assert(new_v =~= old_v.push((k@, f)));
    assert forall|i: int, j: int| 0 <= i < j < new_v.len() implies
        (#[trigger] new_v[i]).0 != (#[trigger] new_v[j]).0 by {
        if j == new_v.len() - 1 {
            assert(new_v[i] == old_v[i]);
        }
    }
}

/// The registries of every factory kind.
pub struct Registries {
    /// Compute backends.
    pub compute_backends: Registry<Box<dyn ComputeBackendFactory>>,
    /// Sensor streams.
    pub sensor_streams: Registry<Box<dyn SensorStreamFactory>>,
    /// Preprocessors.
    pub preprocessors: Registry<Box<dyn PreprocessorFactory>>,
    /// Postprocessors.
    pub postprocessors: Registry<Box<dyn PostprocessorFactory>>,
    /// Output sinks.
    pub output_sinks: Registry<Box<dyn OutputSinkFactory>>,
    /// Platforms.
    pub platforms: Registry<Box<dyn PlatformBackendFactory>>,
}

impl Registries {
    /// Every registry holds distinct keys.
    pub open spec fn wf(&self) -> bool {
        &&& keys_unique(self.compute_backends.entries())
        &&& keys_unique(self.sensor_streams.entries())
        &&& keys_unique(self.preprocessors.entries())
        &&& keys_unique(self.postprocessors.entries())
        &&& keys_unique(self.output_sinks.entries())
        &&& keys_unique(self.platforms.entries())
    }

    /// Empty registries.
    pub fn new() -> (r: Self)
        ensures
            r.wf(),
            r.compute_backends.entries().len() == 0,
            r.sensor_streams.entries().len() == 0,
            r.preprocessors.entries().len() == 0,
            r.postprocessors.entries().len() == 0,
            r.output_sinks.entries().len() == 0,
            r.platforms.entries().len() == 0,
    {
        Registries {
            compute_backends: Registry::new(),
            sensor_streams: Registry::new(),
            preprocessors: Registry::new(),
            postprocessors: Registry::new(),
            output_sinks: Registry::new(),
            platforms: Registry::new(),
        }
    }

    /// Register a compute backend factory under `key`.
    pub fn register_compute_backend(&mut self, key: &str, factory: Box<dyn ComputeBackendFactory>) -> (r: Result<(), RuntimeError>)
        ensures
            final(self).wf(),
            registration(old(self).compute_backends.entries(), final(self).compute_backends.entries(), "compute backend"@, key@, factory, r),
            registered_keys(old(self).compute_backends.entries(), final(self).compute_backends.entries(), key@, r),
            final(self).sensor_streams == old(self).sensor_streams,
            final(self).preprocessors == old(self).preprocessors,
            final(self).postprocessors == old(self).postprocessors,
            final(self).output_sinks == old(self).output_sinks,
            final(self).platforms == old(self).platforms,
    {
        let r = self.compute_backends.register("compute backend", key, factory);
        proof {
            use_type_invariant(&self.compute_backends);
            use_type_invariant(&self.sensor_streams);
            use_type_invariant(&self.preprocessors);
            use_type_invariant(&self.postprocessors);
            use_type_invariant(&self.output_sinks);
            use_type_invariant(&self.platforms);
        }
        r
    }

    /// Register a sensor stream factory under `key`.
    pub fn register_sensor_stream(&mut self, key: &str, factory: Box<dyn SensorStreamFactory>) -> (r: Result<(), RuntimeError>)
        ensures
            final(self).wf(),
            registration(old(self).sensor_streams.entries(), final(self).sensor_streams.entries(), "sensor stream"@, key@, factory, r),
            registered_keys(old(self).sensor_streams.entries(), final(self).sensor_streams.entries(), key@, r),
            final(self).compute_backends == old(self).compute_backends,
            final(self).preprocessors == old(self).preprocessors,
            final(self).postprocessors == old(self).postprocessors,
            final(self).output_sinks == old(self).output_sinks,
            final(self).platforms == old(self).platforms,
    {
        let r = self.sensor_streams.register("sensor stream", key, factory);
        proof {
            use_type_invariant(&self.compute_backends);
            use_type_invariant(&self.sensor_streams);
            use_type_invariant(&self.preprocessors);
            use_type_invariant(&self.postprocessors);
            use_type_invariant(&self.output_sinks);
            use_type_invariant(&self.platforms);
        }
        r
    }

    /// Register a preprocessor factory under `key`.
    pub fn register_preprocessor(&mut self, key: &str, factory: Box<dyn PreprocessorFactory>) -> (r: Result<(), RuntimeError>)
        ensures
            final(self).wf(),
            registration(old(self).preprocessors.entries(), final(self).preprocessors.entries(), "preprocessor"@, key@, factory, r),
            registered_keys(old(self).preprocessors.entries(), final(self).preprocessors.entries(), key@, r),
            final(self).compute_backends == old(self).compute_backends,
            final(self).sensor_streams == old(self).sensor_streams,
            final(self).postprocessors == old(self).postprocessors,
            final(self).output_sinks == old(self).output_sinks,
            final(self).platforms == old(self).platforms,
    {
        let r = self.preprocessors.register("preprocessor", key, factory);
        proof {
            use_type_invariant(&self.compute_backends);
            use_type_invariant(&self.sensor_streams);
            use_type_invariant(&self.preprocessors);
            use_type_invariant(&self.postprocessors);
            use_type_invariant(&self.output_sinks);
            use_type_invariant(&self.platforms);
        }
        r
    }

    /// Register a postprocessor factory under `key`.
    pub fn register_postprocessor(&mut self, key: &str, factory: Box<dyn PostprocessorFactory>) -> (r: Result<(), RuntimeError>)
        ensures
            final(self).wf(),
            registration(old(self).postprocessors.entries(), final(self).postprocessors.entries(), "postprocessor"@, key@, factory, r),
            registered_keys(old(self).postprocessors.entries(), final(self).postprocessors.entries(), key@, r),
            final(self).compute_backends == old(self).compute_backends,
            final(self).sensor_streams == old(self).sensor_streams,
            final(self).preprocessors == old(self).preprocessors,
            final(self).output_sinks == old(self).output_sinks,
            final(self).platforms == old(self).platforms,
    {
        let r = self.postprocessors.register("postprocessor", key, factory);
        proof {
            use_type_invariant(&self.compute_backends);
            use_type_invariant(&self.sensor_streams);
            use_type_invariant(&self.preprocessors);
            use_type_invariant(&self.postprocessors);
            use_type_invariant(&self.output_sinks);
            use_type_invariant(&self.platforms);
        }
        r
    }

    /// Register an output sink factory under `key`.
    pub fn register_output_sink(&mut self, key: &str, factory: Box<dyn OutputSinkFactory>) -> (r: Result<(), RuntimeError>)
        ensures
            final(self).wf(),
            registration(old(self).output_sinks.entries(), final(self).output_sinks.entries(), "output sink"@, key@, factory, r),
            registered_keys(old(self).output_sinks.entries(), final(self).output_sinks.entries(), key@, r),
            final(self).compute_backends == old(self).compute_backends,
            final(self).sensor_streams == old(self).sensor_streams,
            final(self).preprocessors == old(self).preprocessors,
            final(self).postprocessors == old(self).postprocessors,
            final(self).platforms == old(self).platforms,
    {
        let r = self.output_sinks.register("output sink", key, factory);
        proof {
            use_type_invariant(&self.compute_backends);
            use_type_invariant(&self.sensor_streams);
            use_type_invariant(&self.preprocessors);
            use_type_invariant(&self.postprocessors);
            use_type_invariant(&self.output_sinks);
            use_type_invariant(&self.platforms);
        }
        r
    }

    /// Register a platform backend factory under `key`.
    pub fn register_platform(&mut self, key: &str, factory: Box<dyn PlatformBackendFactory>) -> (r: Result<(), RuntimeError>)
        ensures
            final(self).wf(),
            registration(old(self).platforms.entries(), final(self).platforms.entries(), "platform"@, key@, factory, r),
            registered_keys(old(self).platforms.entries(), final(self).platforms.entries(), key@, r),
            final(self).compute_backends == old(self).compute_backends,
            final(self).sensor_streams == old(self).sensor_streams,
            final(self).preprocessors == old(self).preprocessors,
            final(self).postprocessors == old(self).postprocessors,
            final(self).output_sinks == old(self).output_sinks,
    {
        let r = self.platforms.register("platform", key, factory);
        proof {
            use_type_invariant(&self.compute_backends);
            use_type_invariant(&self.sensor_streams);
            use_type_invariant(&self.preprocessors);
            use_type_invariant(&self.postprocessors);
            use_type_invariant(&self.output_sinks);
            use_type_invariant(&self.platforms);
        }
        r
    }
}

} // verus!
