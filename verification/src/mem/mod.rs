//! Guest memory: offsets, pointers, configuration, layout and contents.
pub mod config;
pub mod layout;
pub mod le_bytes;
pub mod ptr_offset;
pub mod shared_mem;
pub mod guest_mem;
pub mod guest_mem_snapshot;
pub mod ptr;
pub mod ptr_addr_space;
pub mod memory_region;
pub mod mgr;
pub mod pe;
pub mod exe;
