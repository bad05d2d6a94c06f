//! Reading a PE file: its headers, its sections and its base relocations.
pub mod base_relocations;
pub mod pe_info;
pub mod section_table;
