//! Choosing the runtime that executes the worker script: a binary bundled
//! beside the script takes precedence (it pins the runtime version and frees
//! the user from installing one); otherwise the bare name `node` is handed to
//! the OS, which resolves it on the executable search path at spawn time.

use vstd::prelude::*;
use vstd::string::*;
use crate::paths::spec_join_path;
use crate::paths::join_path;

verus! {

/// Either the absolute path of a runtime bundled beside the script, or the
/// symbolic choice to let the OS find one on the search path at spawn time.
pub enum RuntimeChoice {
    Bundled(String),
    SearchPath,
}

/// The program name a choice hands to the OS spawn call.
pub open spec fn spec_runtime_program(c: RuntimeChoice) -> Seq<char> {
    match c {
        RuntimeChoice::Bundled(p) => p@,
        RuntimeChoice::SearchPath => "node"@,
    }
}

/// A bundled runtime is selected exactly when either platform-conventional
/// name is present beside the script.
pub open spec fn spec_bundled_selected(windows_name_found: bool, unix_name_found: bool) -> bool {
    windows_name_found || unix_name_found
}

/// The program the selector settles on: the Windows-style name is checked
/// first, then the Unix-style one, then the search-path fallback.
pub open spec fn spec_selected_program(
    dir: Seq<char>,
    windows_name_found: bool,
    unix_name_found: bool,
) -> Seq<char> {
    if windows_name_found {
        spec_join_path(dir, "node.exe"@)
    } else if unix_name_found {
        spec_join_path(dir, "node"@)
    } else {
        "node"@
    }
}

/// A colocated runtime is always preferred over the search path: whenever
/// either platform-conventional name is found beside the script the choice is
/// the bundled binary, and only when neither is found does the selector fall
/// back to the symbolic search-path choice.
pub proof fn lemma_bundled_runtime_preferred(
    dir: Seq<char>,
    windows_name_found: bool,
    unix_name_found: bool,
)
    ensures
        (windows_name_found || unix_name_found) == spec_bundled_selected(
            windows_name_found,
            unix_name_found,
        ),
        windows_name_found ==> spec_selected_program(dir, windows_name_found, unix_name_found)
            == spec_join_path(dir, "node.exe"@),
        !windows_name_found && unix_name_found ==> spec_selected_program(
            dir,
            windows_name_found,
            unix_name_found,
        ) == spec_join_path(dir, "node"@),
        !windows_name_found && !unix_name_found ==> spec_selected_program(
            dir,
            windows_name_found,
            unix_name_found,
        ) == "node"@,
{
}

/// The two locations a bundled runtime may sit at, beside the script: the
/// Windows-style name and the Unix-style name. These are the paths whose
/// existence decides the selection.
pub fn runtime_candidates(script_dir: &str) -> (r: (String, String))
    ensures
        r.0@ == spec_join_path(script_dir@, "node.exe"@),
        r.1@ == spec_join_path(script_dir@, "node"@),
{
    (join_path(script_dir, "node.exe"), join_path(script_dir, "node"))
}

/// Selects the runtime for a script in `script_dir`; the two flags are the
/// existence probes' answers for the paths `runtime_candidates` gives.
pub fn select_runtime(
    script_dir: &str,
    windows_name_found: bool,
    unix_name_found: bool,
) -> (c: RuntimeChoice)
    ensures
        (c is Bundled) == spec_bundled_selected(windows_name_found, unix_name_found),
        spec_runtime_program(c) == spec_selected_program(
            script_dir@,
            windows_name_found,
            unix_name_found,
        ),
{
    if windows_name_found {
        RuntimeChoice::Bundled(join_path(script_dir, "node.exe"))
    } else if unix_name_found {
        RuntimeChoice::Bundled(join_path(script_dir, "node"))
    } else {
        RuntimeChoice::SearchPath
    }
}

} // verus!
