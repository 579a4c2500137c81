//! Kernel-core support library for a dual-processor real-time control
//! platform: the synchronous mailbox protocol between the kernel core and the
//! runtime core, the asynchronous RPC queue, dynamic loading of the kernel
//! program image, structured exceptions with backtrace translation, and the
//! timed-I/O DMA record/playback engine.
//!
//! Everything hardware- or peer-dependent (mailbox doorbells, CSR registers,
//! the runtime core's replies) is modelled by explicit state that the caller
//! owns: register blocks are plain structs, every message the kernel core
//! sends is appended to an outbox, and every reply it waits for is a
//! parameter. A host program drives the loop; the decisions are proved here.

pub mod msg;
pub mod mailbox;
pub mod wire;
pub mod rpc_queue;
pub mod eh;
pub mod rpc;
pub mod loader;
pub mod dma;
pub mod services;
pub mod kernel;
