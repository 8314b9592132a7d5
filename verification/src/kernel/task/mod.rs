//! Task lifecycle, metadata and scheduler diagnostics.

pub mod context;
pub mod diagnostics;
pub mod kernel_stacks;
pub mod mapping_statistics;
pub mod metadata;
pub mod process_lifecycle;
pub mod scheduler;
pub mod snapshots;
pub mod stack;
pub mod state;
pub mod user_image;
