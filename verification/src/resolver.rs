//! Finding the worker script: an ordered list of candidate locations, the
//! first of which exists wins. The packaged resource location is consulted
//! first, then offsets from the working directory that cover the layouts a
//! development tree or a build output tree puts the host binary in. When no
//! candidate exists, resolution fails with a diagnostic that names every
//! location tried, and the launch must not proceed.

use vstd::prelude::*;
use vstd::string::*;
use crate::paths::spec_join_path;
use crate::paths::join_path;

verus! {

/// The character sequences of a list of path strings.
pub open spec fn path_views(paths: Seq<String>) -> Seq<Seq<char>> {
    paths.map_values(|p: String| p@)
}

/// Index of the first candidate marked as existing, or `-1` when none is.
pub open spec fn first_existing(found: Seq<bool>) -> int
    decreases found.len(),
{
    if found.len() == 0 {
        -1
    } else if found[0] {
        0
    } else {
        let rest = first_existing(found.drop_first());
        if rest < 0 {
            -1
        } else {
            rest + 1
        }
    }
}

pub proof fn lemma_first_existing(found: Seq<bool>)
    ensures
        -1 <= first_existing(found) < found.len(),
        first_existing(found) >= 0 ==> found[first_existing(found)],
        forall|j: int| 0 <= j < first_existing(found) ==> !found[j],
        first_existing(found) == -1 ==> forall|j: int| 0 <= j < found.len() ==> !found[j],
    decreases found.len(),
{
    if found.len() == 0 {
    } else if found[0] {
    } else {
        lemma_first_existing(found.drop_first());
        assert forall|j: int| 1 <= j < found.len() implies found.drop_first()[j - 1] == found[j] by {}
    }
}

/// When exactly one candidate exists, resolution picks it, wherever in the
/// priority order it stands; and being a function of the flags alone, it
/// picks the same one on every call over the same filesystem state.
pub proof fn lemma_unique_candidate_is_resolved(found: Seq<bool>, i: int)
    requires
        0 <= i < found.len(),
        found[i],
        forall|j: int| 0 <= j < found.len() && j != i ==> !found[j],
    ensures
        first_existing(found) == i,
{
    lemma_first_existing(found);
}

/// When no candidate exists, resolution reports failure; no script is picked,
/// so nothing is handed on to a spawn.
pub proof fn lemma_no_candidate_means_failure(found: Seq<bool>)
    requires
        forall|j: int| 0 <= j < found.len() ==> !found[j],
    ensures
        first_existing(found) == -1,
{
    lemma_first_existing(found);
}

/// The candidate locations tried, joined for the diagnostic message.
pub open spec fn spec_attempts_list(cands: Seq<Seq<char>>) -> Seq<char>
    decreases cands.len(),
{
    if cands.len() == 0 {
        Seq::empty()
    } else if cands.len() == 1 {
        cands[0]
    } else {
        cands[0] + " or "@ + spec_attempts_list(cands.drop_first())
    }
}

/// The message reported when no candidate exists: it names every path tried.
pub open spec fn spec_resolution_diagnostic(cands: Seq<Seq<char>>) -> Seq<char> {
    "Could not find sidecar at "@ + spec_attempts_list(cands)
}

fn attempts_from(candidates: &Vec<String>, i: usize) -> (r: String)
    requires
        i <= candidates@.len(),
    ensures
        r@ == spec_attempts_list(path_views(candidates@).skip(i as int)),
    decreases candidates@.len() - i,
{
    let n = candidates.len();
    if i == n {
        proof {
            assert(path_views(candidates@).skip(i as int) =~= Seq::<Seq<char>>::empty());
        }
        String::new()
    } else if i == n - 1 {
        proof {
            assert(path_views(candidates@).skip(i as int).len() == 1);
            assert(path_views(candidates@).skip(i as int)[0] == candidates@[i as int]@);
        }
        candidates[i].clone()
    } else {
        let mut s = candidates[i].clone();
        s.append(" or ");
        let rest = attempts_from(candidates, i + 1);
        s.append(rest.as_str());
        proof {
            let pv = path_views(candidates@);
            assert(pv.skip(i as int).len() == n - i);
            assert(pv.skip(i as int)[0] == candidates@[i as int]@);
            assert(pv.skip(i as int).drop_first() =~= pv.skip(i as int + 1));
        }
        s
    }
}

/// The diagnostic for a failed resolution, naming every candidate tried.
pub fn resolution_diagnostic(candidates: &Vec<String>) -> (r: String)
    ensures
        r@ == spec_resolution_diagnostic(path_views(candidates@)),
{
    let mut s = "Could not find sidecar at ".to_owned();
    let rest = attempts_from(candidates, 0);
    proof {
        assert(path_views(candidates@).skip(0) =~= path_views(candidates@));
    }
    s.append(rest.as_str());
    s
}

/// The candidate locations for the worker script, in priority order: the
/// packaged resource hint first, then the working directory itself, its
/// parent, and three levels up (where a build output tree puts the binary).
pub fn candidate_paths(primary_hint: &str, working_dir: &str) -> (r: Vec<String>)
    ensures
        path_views(r@) == spec_candidate_views(primary_hint@, working_dir@),
        r@.len() == 4,
{
    let mut v: Vec<String> = Vec::new();
    v.push(primary_hint.to_owned());
    v.push(join_path(working_dir, "sidecar/index.js"));
    v.push(join_path(working_dir, "../sidecar/index.js"));
    v.push(join_path(working_dir, "../../../sidecar/index.js"));
    proof {
        assert(path_views(v@) =~= spec_candidate_views(primary_hint@, working_dir@));
    }
    v
}

/// The views of the four candidate locations, in priority order.
pub open spec fn spec_candidate_views(primary: Seq<char>, cwd: Seq<char>) -> Seq<Seq<char>> {
    seq![
        primary,
        spec_join_path(cwd, "sidecar/index.js"@),
        spec_join_path(cwd, "../sidecar/index.js"@),
        spec_join_path(cwd, "../../../sidecar/index.js"@),
    ]
}

/// Picks the first candidate that exists on the filesystem; `found[i]` is the
/// existence probe's answer for `candidates[i]`. When none exists, returns
/// the diagnostic that names every path tried.
pub fn resolve_script(candidates: &Vec<String>, found: &Vec<bool>) -> (r: Result<String, String>)
    requires
        candidates@.len() == found@.len(),
    ensures
        first_existing(found@) >= 0 ==> (r matches Ok(p) && p@ == candidates@[first_existing(
            found@,
        )]@),
        first_existing(found@) == -1 ==> (r matches Err(m) && m@ == spec_resolution_diagnostic(
            path_views(candidates@),
        )),
{
    let n = candidates.len();
    let mut i: usize = 0;
    while i < n
        invariant
            i <= n,
            n == candidates@.len(),
            candidates@.len() == found@.len(),
            forall|j: int| 0 <= j < i ==> !found@[j],
        decreases n - i,
    {
        if found[i] {
            proof {
                lemma_first_existing(found@);
                assert(first_existing(found@) == i);
            }
            return Ok(candidates[i].clone());
        }
        i += 1;
    }
    proof {
        lemma_no_candidate_means_failure(found@);
    }
    Err(resolution_diagnostic(candidates))
}

} // verus!
