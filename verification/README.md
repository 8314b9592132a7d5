# manaos

The verified core of the ManaOS x86_64 kernel, written in Verus.

- `src/kernel/memory`: typed physical and virtual addresses, the physical
  frame allocator with owner tracking, the kernel virtual range allocator,
  kernel stacks, the user address-space layout, heap, stacks and private
  mappings, and the page-flag choices for identity mapping.
- `src/kernel/task`: task metadata, lifecycle states, the scheduler with its
  parent/child exit bookkeeping, timer switching, user entry and resume
  records, and diagnostics snapshots.
- `src/kernel/syscall.rs`, `src/kernel/process_syscalls.rs`: syscall
  argument checks and the process syscalls as state transitions.
- `src/shared`: the syscall numbering and the frames shared with the
  assembly entry paths.
- `app/`: the boot path, the hardware hooks, the global kernel state and the
  loops that drive the library; it is ordinary Rust that Verus does not see.
- `tests/`: executable tests of the library.
