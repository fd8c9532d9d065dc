# qubit-atomic (verified)

Atomic values with default memory orderings, in the style of Java's
`java.util.concurrent.atomic`, written in Verus.

- `src/atomic/atomic.rs` — `Atomic<T>` for `bool` and the primitive integers.
- `src/atomic/atomic_bool.rs`, `int_backend.rs`, `wide_backend.rs` — the
  backends behind `Atomic<T>`: the standard library's atomics, and
  `portable_atomic` for 128-bit integers.
- `src/atomic/atomic_count.rs`, `atomic_signed_count.rs`, `count_rules.rs` —
  counters that never wrap, their checked transitions and the laws those obey.
- `src/atomic/atomic_ref.rs` — `AtomicRef<T>`, an atomic `Arc<T>` on `arc_swap`.
- `src/atomic/arc_*.rs` — shared-owner handles to the containers above.
- `app/lib.rs` — `AtomicF32` and `AtomicF64`, kept outside the verified
  library because Verus does not reason about floating point; they store raw
  bits in the library's `Atomic<u32>` and `Atomic<u64>`.

The counters never wrap and never panic. An `inc`, `add`, `dec` or `sub`
whose result would leave the counter's range is refused: the counter keeps
its value and the call returns the value it saw, without signalling the
refusal. Code that must react to an overflow or an underflow calls
`try_add`, `try_dec` or `try_sub`, which return `None` when they refuse.
What a counter operation returns for each outcome of its compare-and-set
loop is given exactly by the public functions `count_add_outcome`,
`count_try_add_outcome`, `count_sub_outcome`, `count_try_sub_outcome` and
their `signed_*` counterparts in `count_rules.rs`.

Another thread may change an atomic between any two calls, so the contracts
state what holds of every interleaving: which closure result an update
applied, which checked transition a counter took, what a failed
compare-and-set reports.
