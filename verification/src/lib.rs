//! A fleet build runner: it plans the synchronize-and-build work for a set of
//! remote hosts, renders every line of their interleaved output through one
//! shared console sink, and reduces the per-host outcomes to a single exit
//! code. Process execution and thread fan-out live outside the library; the
//! library holds the decisions: which commands run on which host in which
//! order, what every console line looks like, and how outcomes aggregate.

pub mod config;
pub mod engine;
pub mod host;
pub mod log;
pub mod remote;
