//! Planning the diagnostic log sink for one launch: the per-application log
//! directory is created when missing, and a fixed-name artifact inside it is
//! recreated fresh — never appended — so one file always covers exactly one
//! process lifetime. Provisioning is best effort: a launch proceeds without
//! capture when the artifact cannot be made.

use vstd::prelude::*;
use vstd::string::*;
use crate::paths::spec_join_path;
use crate::paths::join_path;

verus! {

/// What one launch asks of the log sink: create the directory when it is
/// missing, and (re)create the fixed-name artifact inside it, truncating any
/// earlier content (`append` is never set).
pub struct LogPlan {
    pub create_directory: bool,
    pub log_directory: String,
    pub log_path: String,
    pub append: bool,
}

/// The artifact's fixed location under the log directory.
pub open spec fn spec_log_path(dir: Seq<char>) -> Seq<char> {
    spec_join_path(dir, "sidecar.log"@)
}

/// The plan for one launch, as (create the directory, artifact path, append).
pub open spec fn spec_provision_plan(dir: Seq<char>, directory_exists: bool) -> (
    bool,
    Seq<char>,
    bool,
) {
    (!directory_exists, spec_log_path(dir), false)
}

/// Provisioning is launch-independent and fresh: whatever state earlier
/// launches left the directory in, every launch plans the same artifact
/// location and never appends, so content from a prior launch cannot carry
/// into a new one.
pub proof fn lemma_provisioning_fresh(dir: Seq<char>, earlier_exists: bool, later_exists: bool)
    ensures
        spec_provision_plan(dir, earlier_exists).1 == spec_provision_plan(dir, later_exists).1,
        !spec_provision_plan(dir, earlier_exists).2,
        !spec_provision_plan(dir, later_exists).2,
{
}

/// Plans the log sink for one launch; `directory_exists` is the existence
/// probe's answer for `log_dir`.
pub fn provision_plan(log_dir: &str, directory_exists: bool) -> (p: LogPlan)
    ensures
        p.create_directory == spec_provision_plan(log_dir@, directory_exists).0,
        p.log_path@ == spec_provision_plan(log_dir@, directory_exists).1,
        p.append == spec_provision_plan(log_dir@, directory_exists).2,
        p.log_directory@ == log_dir@,
{
    LogPlan {
        create_directory: !directory_exists,
        log_directory: log_dir.to_owned(),
        log_path: join_path(log_dir, "sidecar.log"),
        append: false,
    }
}

} // verus!
