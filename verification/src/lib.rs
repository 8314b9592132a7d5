//! ManaOS kernel core: typed memory addresses, physical and virtual range
//! allocators, user memory bookkeeping, and task records.

pub mod kernel;
pub mod shared;
