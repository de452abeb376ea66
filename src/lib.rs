//! Client-side lifecycle of a full-duplex socket connection: the ready-state
//! machine, validation of close requests, the lifecycle tasks that carry work
//! between the owning thread and background workers, and the FIFO channel that
//! delivers those tasks back to the owning thread.
pub mod ready_state;
pub mod task_queue;
pub mod websocket;
pub mod laws;
pub mod owner;
