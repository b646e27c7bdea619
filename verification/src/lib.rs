//! The verified core of a small teaching kernel: the file-descriptor table,
//! the ELF loader's decisions, the memory system calls' arithmetic and the
//! other decisions that the system calls make.
pub mod error;
pub mod fd_table;
pub mod fs;
pub mod elf;
pub mod page;
pub mod loader;
pub mod aux;
pub mod image;
pub mod mm;
pub mod fs_calls;
pub mod misc;
pub mod task;
