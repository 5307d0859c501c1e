//! Verified core logic of Gear's backend host functions, lazy-pages fault
//! handling, scheduler interfaces and a key-value test program.

pub mod traps;
pub mod lazy_pages;
pub mod kv_program;
pub mod scheduler;
pub mod ext;
pub mod host_funcs;
pub mod runtime;
