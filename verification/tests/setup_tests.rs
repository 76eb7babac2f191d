use audio_purifai::paths::Os;
use audio_purifai::setup::{bundled_script_path, setup_invocation, setup_outcome, setup_script_name, strip_verbatim_prefix};

#[test]
fn verbatim_prefix_is_stripped() {
    assert_eq!(strip_verbatim_prefix("\\\\?\\C:\\app\\scripts\\setup-env.ps1"), "C:\\app\\scripts\\setup-env.ps1");
    assert_eq!(strip_verbatim_prefix("C:\\app"), "C:\\app");
    assert_eq!(strip_verbatim_prefix("\\\\?"), "\\\\?");
    assert_eq!(strip_verbatim_prefix(""), "");
}

#[test]
fn setup_commands() {
    let w = setup_invocation(Os::Windows, "\\\\?\\C:\\s\\setup-env.ps1");
    assert_eq!(w.program, "powershell");
    assert_eq!(w.args, vec!["-ExecutionPolicy", "Bypass", "-File", "C:\\s\\setup-env.ps1"]);
    let u = setup_invocation(Os::Other, "/opt/app/scripts/setup-env.sh");
    assert_eq!(u.program, "bash");
    assert_eq!(u.args, vec!["/opt/app/scripts/setup-env.sh"]);
}

#[test]
fn setup_names_and_outcome() {
    assert_eq!(setup_script_name(Os::Windows), "setup-env.ps1");
    assert_eq!(setup_script_name(Os::Other), "setup-env.sh");
    assert_eq!(bundled_script_path("worker.py"), "scripts/worker.py");
    assert_eq!(setup_outcome(true), Ok(()));
    assert_eq!(setup_outcome(false), Err("Installation script failed".to_string()));
}
