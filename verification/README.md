# limen

The verified core of a graph-driven edge-inference runtime, written in Verus.

## Layout

- `src/` — the library. Every executable function carries a `requires`/`ensures`
  contract that Verus proves.
  - `message`, `batch`: messages, headers, payload descriptors and batch views.
  - `policy`: queue caps, watermarks, admission decisions and batching policies.
  - `edge`: the single-producer single-consumer `Edge` contract and its queues
    (`HeapRing`, `SpscRingbuf`, `SpscAtomicRing`, `Priority2`, links,
    endpoints and the mutex-shared handle). Each queue states its behaviour as
    spec functions over an abstract model (its messages, a byte counter and a
    capacity).
  - `graph`, `pipeline`: occupancy refresh, worker readiness, and the wiring of
    the three-node pipeline.
  - `codegen`: the typed graph builder over `syn` types.
  - `registry`, `compute`, `config`: factory registries and compute contracts.
  - `laws`: properties that span several operations, as public proof functions.
- `tests/` — executable tests of the library.
- `app/` — the unverified host side: file loading, lock-guarded access to shared
  queues, and the worker loop.

## Design notes

- `SpscRingbuf` keeps its ring in a `VecDeque` whose physical capacity is the
  configured capacity rounded up to a power of two. The queue's contract speaks
  of the sequence of queued messages; a ring of the `ringbuf` crate holds
  generic items whose contents no specification of this library can name, so
  the queue could not be verified over it.
- `Registry` keeps its factories as `(key, factory)` pairs in registration
  order, with distinct keys as a type invariant, rather than in a sorted map.
- `SpscAtomicRing` is a safe ring of `Option` slots with masked head and tail
  indices; one slot always stays free.
