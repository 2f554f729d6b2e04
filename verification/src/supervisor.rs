//! The spawn request for the worker: one child process, the selected runtime
//! as its program, the resolved script as its single argument, output wired
//! to the log sink when one is ready, and — on the windowed OS — the flag
//! that keeps the spawn from popping a console window behind the UI. The
//! shell that carries the plan out runs it off the caller's thread; once the
//! spawn call succeeds the supervisor relinquishes interest in the child.

use vstd::prelude::*;
use vstd::string::*;
use crate::runtime::RuntimeChoice;
use crate::runtime::spec_runtime_program;

verus! {

/// Everything an OS spawn call needs for one launch. `capture_output` is set
/// exactly when a log sink was made ready; when it is unset the child's
/// output must be discarded, never inherited (a windowed host may have no
/// streams of its own).
pub struct SpawnPlan {
    pub program: String,
    pub script_argument: String,
    pub suppress_console_window: bool,
    pub capture_output: bool,
}

/// Builds the spawn request: program from the runtime choice, the script as
/// the single argument, console suppression exactly on the windowed platform,
/// and capture exactly when the log sink came up.
pub fn spawn_plan(
    script_path: &str,
    runtime: &RuntimeChoice,
    windowed_platform: bool,
    log_sink_ready: bool,
) -> (p: SpawnPlan)
    ensures
        p.program@ == spec_runtime_program(*runtime),
        p.script_argument@ == script_path@,
        p.suppress_console_window == windowed_platform,
        p.capture_output == log_sink_ready,
{
    let program = match runtime {
        RuntimeChoice::Bundled(path) => path.clone(),
        RuntimeChoice::SearchPath => "node".to_owned(),
    };
    SpawnPlan {
        program,
        script_argument: script_path.to_owned(),
        suppress_console_window: windowed_platform,
        capture_output: log_sink_ready,
    }
}

} // verus!
