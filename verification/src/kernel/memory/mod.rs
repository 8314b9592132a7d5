//! Kernel memory management.

pub mod address;
pub mod diagnostics;
pub mod frame_allocator;
pub mod page_flags;
pub mod paging;
pub mod self_checks;
pub mod user_mapping;
pub mod user_pointer;
pub mod user_stack;
pub mod user_heap;
pub mod user_layout;
pub mod virtual_allocator;
