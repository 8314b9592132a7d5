//! Synchronization-free queues.

pub mod ring_buffer;
