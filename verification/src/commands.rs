//! The command surface the host UI calls. `start_sidecar` turns the probe
//! answers for one launch attempt into either a complete launch plan and its
//! immediate acknowledgement, or the resolution diagnostic when the worker
//! script exists at no candidate location — in which case nothing reaches a
//! spawn. `send_whatsapp_message` is the outbound stub: it validates the
//! request's shape and acknowledges it as queued; delivery over a persistent
//! channel to the worker is outside this core.

use vstd::prelude::*;
use vstd::string::*;
use crate::logsink::LogPlan;
use crate::logsink::provision_plan;
use crate::logsink::spec_log_path;
use crate::paths::parent_dir;
use crate::paths::spec_parent_dir;
use crate::resolver::candidate_paths;
use crate::resolver::first_existing;
use crate::resolver::resolve_script;
use crate::resolver::spec_candidate_views;
use crate::resolver::spec_resolution_diagnostic;
use crate::runtime::RuntimeChoice;
use crate::runtime::select_runtime;
use crate::runtime::spec_bundled_selected;
use crate::runtime::spec_runtime_program;
use crate::runtime::spec_selected_program;

verus! {

/// The filesystem answers one launch attempt rests on: one existence flag per
/// candidate script location, the two flags for a runtime bundled beside the
/// resolved script, and whether the log directory is already there.
pub struct LaunchProbes {
    pub candidate_exists: Vec<bool>,
    pub windows_runtime_found: bool,
    pub unix_runtime_found: bool,
    pub log_directory_exists: bool,
}

/// Everything one launch settled before any side effect: the script, the
/// runtime to execute it with, the log sink to provision, whether the spawn
/// must suppress a console window, and the acknowledgement the caller is
/// handed at once — it never waits on the child.
pub struct LaunchPlan {
    pub script_path: String,
    pub runtime: RuntimeChoice,
    pub log: LogPlan,
    pub windowed_platform: bool,
    pub acknowledgement: String,
}

/// Settles one launch attempt from the probe answers: resolves the script
/// among the four candidate locations, selects the runtime bundled beside it
/// or the search-path fallback, and plans a fresh log sink. When no candidate
/// exists the result is the diagnostic naming every location tried, and no
/// plan — so no spawn — comes out of the attempt.
pub fn start_sidecar(
    primary_hint: &str,
    working_dir: &str,
    log_dir: &str,
    windowed_platform: bool,
    probes: &LaunchProbes,
) -> (r: Result<LaunchPlan, String>)
    requires
        probes.candidate_exists@.len() == 4,
    ensures
        first_existing(probes.candidate_exists@) == -1 ==> (r matches Err(m) && m@
            == spec_resolution_diagnostic(spec_candidate_views(primary_hint@, working_dir@))),
        first_existing(probes.candidate_exists@) >= 0 ==> (r matches Ok(p) && ({
            let script = spec_candidate_views(primary_hint@, working_dir@)[first_existing(
                probes.candidate_exists@,
            )];
            &&& p.script_path@ == script
            &&& (p.runtime is Bundled) == spec_bundled_selected(
                probes.windows_runtime_found,
                probes.unix_runtime_found,
            )
            &&& spec_runtime_program(p.runtime) == spec_selected_program(
                spec_parent_dir(script),
                probes.windows_runtime_found,
                probes.unix_runtime_found,
            )
            &&& p.log.create_directory == !probes.log_directory_exists
            &&& p.log.log_directory@ == log_dir@
            &&& p.log.log_path@ == spec_log_path(log_dir@)
            &&& !p.log.append
            &&& p.windowed_platform == windowed_platform
            &&& p.acknowledgement@ == "Sidecar started"@
        })),
{
    let candidates = candidate_paths(primary_hint, working_dir);
    let script = match resolve_script(&candidates, &probes.candidate_exists) {
        Ok(s) => s,
        Err(m) => {
            return Err(m);
        },
    };
    proof {
        crate::resolver::lemma_first_existing(probes.candidate_exists@);
        let fe = first_existing(probes.candidate_exists@);
        assert(crate::resolver::path_views(candidates@)[fe] == candidates@[fe]@);
    }
    let script_dir = parent_dir(script.as_str());
    let runtime = select_runtime(
        script_dir.as_str(),
        probes.windows_runtime_found,
        probes.unix_runtime_found,
    );
    let log = provision_plan(log_dir, probes.log_directory_exists);
    Ok(
        LaunchPlan {
            script_path: script,
            runtime,
            log,
            windowed_platform,
            acknowledgement: "Sidecar started".to_owned(),
        },
    )
}

/// A recipient identifier is a non-empty run of decimal digits.
pub open spec fn spec_is_digit(c: char) -> bool {
    48 <= c as u32 && c as u32 <= 57
}

pub open spec fn spec_valid_recipient(s: Seq<char>) -> bool {
    s.len() > 0 && (forall|i: int| 0 <= i < s.len() ==> spec_is_digit(s[i]))
}

pub open spec fn spec_valid_message(s: Seq<char>) -> bool {
    s.len() > 0
}

/// The outbound stub: validates the request's shape and acknowledges it as
/// queued. A malformed recipient or an empty body is rejected synchronously;
/// forwarding over a persistent channel to the worker is not attempted here.
pub fn send_whatsapp_message(number: String, message: String) -> (r: Result<String, String>)
    ensures
        (spec_valid_recipient(number@) && spec_valid_message(message@)) <==> (r is Ok),
        r is Ok ==> (r matches Ok(a) && a@ == "Message queued"@),
        !spec_valid_recipient(number@) ==> (r matches Err(m) && m@ == "Invalid recipient"@),
        spec_valid_recipient(number@) && !spec_valid_message(message@) ==> (r matches Err(m) && m@
            == "Empty message"@),
{
    let digits = number.as_str();
    let n = digits.unicode_len();
    if n == 0 {
        return Err("Invalid recipient".to_owned());
    }
    let mut i: usize = 0;
    while i < n
        invariant
            i <= n,
            n == digits@.len(),
            digits@ == number@,
            forall|j: int| 0 <= j < i ==> spec_is_digit(number@[j]),
        decreases n - i,
    {
        let c = digits.get_char(i);
        let code = c as u32;
        if code < 48 || code > 57 {
            return Err("Invalid recipient".to_owned());
        }
        i += 1;
    }
    if message.as_str().unicode_len() == 0 {
        return Err("Empty message".to_owned());
    }
    Ok("Message queued".to_owned())
}

} // verus!
