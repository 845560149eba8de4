//! Argument classification and command synthesis for a WebAssembly (WASIX)
//! C/C++ toolchain front end.
pub mod classify;
pub mod commands;
pub mod config;
pub mod error;
pub mod laws;
pub mod modes;
pub mod pipeline;
pub mod release;
pub mod settings;
pub mod text;

pub use modes::{get_sysroot, run_ar, run_compiler, run_linker, run_nm, run_ranlib};
pub use release::{download_llvm, download_sysroot, SysrootSpec, TagSpec};
