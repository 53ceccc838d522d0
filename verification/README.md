# kernel_snippets

Verified models of driver patterns from Rust-for-Linux, written in Verus.

- `src/error.rs` — the errno-style `Error` type and its numeric values.
- `src/lock_free.rs` — a statistics counter, a LIFO stack, a
  reference-counted handle and an RCU-style published value.
- `src/dma_operations.rs` — DMA directions, coherent buffers, streaming
  mappings with CPU/device ownership, MMIO register addressing, descriptors.
- `src/interrupt_handler.rs` — interrupt handler state: top/bottom halves,
  threaded handlers, per-device statistics.
- `src/error_propagation.rs` — `Result` conversions, search and batch
  processing with first-failure semantics.
- `src/memory_allocator.rs` — allocation helpers and a bounds-checked buffer.
- `src/rust_to_c.rs` — data handed to C and conversion of C status codes.

`app/` holds what needs raw pointers or C: interrupt entry points, volatile
MMIO access, printk/jiffies/configure_device calls, the `repr(C)` layouts
hardware and C read, and log output.

What is proved is the effect of each operation performed alone. Concurrency is
not modelled: the counters, stack, reference count, RCU value and interrupt
state are updated through exclusive (`&mut`) access, and the memory orderings,
compare-and-swap retry loops and progress properties that lock-free versions
of these structures need are not stated or proved. `app/irq_shared.rs` supplies the mutual
exclusion the interrupt entry points need.
