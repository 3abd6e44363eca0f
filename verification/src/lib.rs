//! Bootstrap and runtime supervision for a dashboard service: the start-up
//! configuration, the shared snapshot slot, the one-shot bootstrap task and
//! the supervisor that races it against the server. Beside them stands the
//! description of the RISC-V target that the benchmark suite compiles.

pub mod snapshot;
pub mod holder;
pub mod config;
pub mod bootstrap;
pub mod supervisor;
pub mod riscv;
