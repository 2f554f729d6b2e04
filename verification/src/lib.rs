//! Sidecar launch core: locating a worker script across deployment layouts,
//! choosing the runtime to execute it, planning a fresh per-launch log sink,
//! and building the spawn request — all as verified decisions over plain
//! values, so a thin unverified shell only has to probe the filesystem and
//! carry the plans out.

pub mod commands;
pub mod logsink;
pub mod paths;
pub mod resolver;
pub mod runtime;
pub mod supervisor;
