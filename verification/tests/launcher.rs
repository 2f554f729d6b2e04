use sidecar_host::commands::{send_whatsapp_message, start_sidecar, LaunchProbes};
use sidecar_host::logsink::provision_plan;
use sidecar_host::paths::{join_path, parent_dir};
use sidecar_host::resolver::{candidate_paths, resolution_diagnostic, resolve_script};
use sidecar_host::runtime::{runtime_candidates, select_runtime, RuntimeChoice};
use sidecar_host::supervisor::spawn_plan;

fn strings(items: &[&str]) -> Vec<String> {
    items.iter().map(|s| s.to_string()).collect()
}

#[test]
fn join_path_inserts_one_separator() {
    assert_eq!(join_path("a/b", "c.js"), "a/b/c.js");
}

#[test]
fn join_path_with_empty_directory_is_the_bare_name() {
    assert_eq!(join_path("", "node.exe"), "node.exe");
}

#[test]
fn parent_dir_takes_everything_before_the_last_separator() {
    assert_eq!(parent_dir("a/b/c.js"), "a/b");
    assert_eq!(parent_dir("./sidecar/index.js"), "./sidecar");
}

#[test]
fn parent_dir_of_a_bare_name_is_empty() {
    assert_eq!(parent_dir("index.js"), "");
}

#[test]
fn candidate_paths_cover_the_four_layouts_in_priority_order() {
    let c = candidate_paths("/pkg/res/sidecar/index.js", "/work");
    assert_eq!(c.len(), 4);
    assert_eq!(c[0], "/pkg/res/sidecar/index.js");
    assert_eq!(c[1], "/work/sidecar/index.js");
    assert_eq!(c[2], "/work/../sidecar/index.js");
    assert_eq!(c[3], "/work/../../../sidecar/index.js");
}

#[test]
fn resolver_returns_the_present_fallback_when_the_hint_is_absent() {
    // Scenario: the packaged hint is absent and the working-directory
    // candidate is present; resolution picks the latter.
    let cands = strings(&["/pkg/res/sidecar/index.js", "./sidecar/index.js"]);
    let found = vec![false, true];
    assert_eq!(resolve_script(&cands, &found), Ok("./sidecar/index.js".to_string()));
}

#[test]
fn resolver_returns_the_single_existing_candidate_at_any_position() {
    let cands = strings(&["/a", "/b", "/c"]);
    for i in 0..3 {
        let found: Vec<bool> = (0..3).map(|j| j == i).collect();
        let picked = resolve_script(&cands, &found);
        assert_eq!(picked, Ok(cands[i].clone()));
        // Same filesystem state, same answer.
        assert_eq!(resolve_script(&cands, &found), picked);
    }
}

#[test]
fn resolver_prefers_the_earlier_of_two_existing_candidates() {
    let cands = strings(&["/a", "/b", "/c"]);
    let found = vec![false, true, true];
    assert_eq!(resolve_script(&cands, &found), Ok("/b".to_string()));
}

#[test]
fn resolution_failure_names_every_path_tried() {
    let cands = strings(&["/a", "/b"]);
    let found = vec![false, false];
    assert_eq!(
        resolve_script(&cands, &found),
        Err("Could not find sidecar at /a or /b".to_string())
    );
}

#[test]
fn resolution_diagnostic_with_one_candidate_has_no_separator() {
    let cands = strings(&["/only"]);
    assert_eq!(resolution_diagnostic(&cands), "Could not find sidecar at /only");
}

#[test]
fn runtime_candidates_sit_beside_the_script() {
    let (win, unix) = runtime_candidates("/app/sidecar");
    assert_eq!(win, "/app/sidecar/node.exe");
    assert_eq!(unix, "/app/sidecar/node");
}

#[test]
fn selector_picks_the_colocated_windows_binary_by_absolute_path() {
    // Scenario: the script directory holds node.exe on the windowed OS; the
    // choice is the colocated binary's full path, not the bare name.
    let choice = select_runtime("C:/app/resources/sidecar", true, false);
    match &choice {
        RuntimeChoice::Bundled(p) => assert_eq!(p, "C:/app/resources/sidecar/node.exe"),
        RuntimeChoice::SearchPath => panic!("expected the bundled runtime"),
    }
    let plan = spawn_plan("C:/app/resources/sidecar/index.js", &choice, true, true);
    assert_eq!(plan.program, "C:/app/resources/sidecar/node.exe");
    assert_ne!(plan.program, "node");
    assert!(plan.suppress_console_window);
}

#[test]
fn selector_picks_the_colocated_unix_binary_when_the_windows_name_is_absent() {
    let choice = select_runtime("/app/sidecar", false, true);
    match choice {
        RuntimeChoice::Bundled(p) => assert_eq!(p, "/app/sidecar/node"),
        RuntimeChoice::SearchPath => panic!("expected the bundled runtime"),
    }
}

#[test]
fn selector_falls_back_to_the_search_path_when_nothing_is_colocated() {
    let choice = select_runtime("/app/sidecar", false, false);
    assert!(matches!(choice, RuntimeChoice::SearchPath));
    let plan = spawn_plan("/app/sidecar/index.js", &choice, false, true);
    assert_eq!(plan.program, "node");
    assert!(!plan.suppress_console_window);
}

#[test]
fn spawn_plan_carries_the_script_and_the_capture_decision() {
    let plan = spawn_plan("/s/index.js", &RuntimeChoice::SearchPath, false, false);
    assert_eq!(plan.script_argument, "/s/index.js");
    assert!(!plan.capture_output);
}

#[test]
fn provisioning_creates_a_missing_directory_and_a_fresh_artifact() {
    // Scenario: the log directory does not exist before the launch; the plan
    // asks for it to be created and for the artifact inside it.
    let plan = provision_plan("/home/u/logs/app", false);
    assert!(plan.create_directory);
    assert_eq!(plan.log_directory, "/home/u/logs/app");
    assert_eq!(plan.log_path, "/home/u/logs/app/sidecar.log");
    assert!(!plan.append);
}

#[test]
fn provisioning_is_the_same_fresh_plan_on_every_launch() {
    // A second launch plans the same artifact location and again truncates,
    // whatever state the first launch left the directory in.
    let first = provision_plan("/logs", false);
    let second = provision_plan("/logs", true);
    assert_eq!(first.log_path, second.log_path);
    assert!(!first.append);
    assert!(!second.append);
    assert!(!second.create_directory);
}

fn probes(candidate_exists: Vec<bool>, win: bool, unix: bool, log_dir: bool) -> LaunchProbes {
    LaunchProbes {
        candidate_exists,
        windows_runtime_found: win,
        unix_runtime_found: unix,
        log_directory_exists: log_dir,
    }
}

#[test]
fn start_sidecar_settles_the_whole_launch_from_the_probes() {
    let p = probes(vec![false, true, false, false], false, true, false);
    let plan = start_sidecar("/pkg/res/sidecar/index.js", ".", "/logs/app", false, &p).unwrap();
    assert_eq!(plan.script_path, "./sidecar/index.js");
    match plan.runtime {
        RuntimeChoice::Bundled(ref b) => assert_eq!(b, "./sidecar/node"),
        RuntimeChoice::SearchPath => panic!("expected the bundled runtime"),
    }
    assert!(plan.log.create_directory);
    assert_eq!(plan.log.log_path, "/logs/app/sidecar.log");
    assert!(!plan.log.append);
    assert!(!plan.windowed_platform);
    assert_eq!(plan.acknowledgement, "Sidecar started");
}

#[test]
fn start_sidecar_acknowledges_before_any_spawn_could_have_run() {
    // The acknowledgement is settled by the probe answers alone; no spawn
    // outcome is an input to it.
    let p = probes(vec![true, false, false, false], false, false, true);
    let plan = start_sidecar("/pkg/res/sidecar/index.js", "/w", "/logs", true, &p).unwrap();
    assert_eq!(plan.acknowledgement, "Sidecar started");
    assert_eq!(plan.script_path, "/pkg/res/sidecar/index.js");
    assert!(matches!(plan.runtime, RuntimeChoice::SearchPath));
    assert!(plan.windowed_platform);
    assert!(!plan.log.create_directory);
}

#[test]
fn start_sidecar_without_any_candidate_yields_no_plan() {
    // No candidate exists: the attempt ends in the diagnostic, and since no
    // plan comes out, nothing can reach a spawn.
    let p = probes(vec![false, false, false, false], true, true, true);
    let r = start_sidecar("/pkg/res/sidecar/index.js", "/w", "/logs", true, &p);
    match r {
        Ok(_) => panic!("a launch plan must not come out of a failed resolution"),
        Err(m) => assert_eq!(
            m,
            "Could not find sidecar at /pkg/res/sidecar/index.js or /w/sidecar/index.js or /w/../sidecar/index.js or /w/../../../sidecar/index.js"
        ),
    }
}

#[test]
fn send_message_with_no_worker_running_reports_queued() {
    // Scenario: the stub accepts a well-formed request even though no worker
    // channel exists yet.
    let r = send_whatsapp_message("15551234567".to_string(), "hello".to_string());
    assert_eq!(r, Ok("Message queued".to_string()));
}

#[test]
fn send_message_rejects_a_non_digit_recipient() {
    let r = send_whatsapp_message("555-123".to_string(), "hello".to_string());
    assert_eq!(r, Err("Invalid recipient".to_string()));
}

#[test]
fn send_message_rejects_an_empty_recipient() {
    let r = send_whatsapp_message(String::new(), "hello".to_string());
    assert_eq!(r, Err("Invalid recipient".to_string()));
}

#[test]
fn send_message_rejects_an_empty_body() {
    let r = send_whatsapp_message("15551234567".to_string(), String::new());
    assert_eq!(r, Err("Empty message".to_string()));
}
