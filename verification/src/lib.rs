//! Verified models of common Rust-for-Linux driver patterns: errno-style error
//! handling, lock-free containers, DMA and MMIO bookkeeping, interrupt handler
//! state machines and kernel allocation helpers.

pub mod error;
pub mod lock_free;
pub mod dma_operations;
pub mod interrupt_handler;
pub mod error_propagation;
pub mod memory_allocator;
pub mod rust_to_c;
