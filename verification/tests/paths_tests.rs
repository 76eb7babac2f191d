use audio_purifai::paths::{check_ffmpeg, deep_filter_exe, ffmpeg_exe, ffprobe_exe, HostPaths, Os};
use audio_purifai::queue::resolve_output_dir;

fn host(os: Os, exe_dir: Option<&str>, cwd: Option<&str>, existing: &[&str]) -> HostPaths {
    HostPaths {
        os,
        exe_dir: exe_dir.map(|s| s.to_string()),
        cwd: cwd.map(|s| s.to_string()),
        existing: existing.iter().map(|s| s.to_string()).collect(),
    }
}

#[test]
fn tool_candidates_in_search_order() {
    let h = host(Os::Other, Some("/opt/app"), Some("/home/u/proj"), &[]);
    assert_eq!(
        h.tool_candidates("ffmpeg"),
        vec![
            "/opt/app/ffmpeg_bin/ffmpeg".to_string(),
            "/home/u/proj/ffmpeg_bin/ffmpeg".to_string(),
            "/home/u/proj/../ffmpeg_bin/ffmpeg".to_string(),
        ]
    );
    let w = host(Os::Windows, None, None, &[]);
    assert_eq!(
        w.tool_candidates("ffprobe"),
        vec!["ffmpeg_bin/ffprobe.exe".to_string(), "../ffmpeg_bin/ffprobe.exe".to_string()]
    );
}

#[test]
fn ffmpeg_found_in_first_existing_place() {
    let h = host(
        Os::Other,
        Some("/opt/app"),
        Some("/home/u/proj"),
        &["/home/u/proj/../ffmpeg_bin/ffmpeg", "/home/u/proj/ffmpeg_bin/ffmpeg"],
    );
    assert_eq!(ffmpeg_exe(&h), Ok("/home/u/proj/ffmpeg_bin/ffmpeg".to_string()));
}

#[test]
fn ffprobe_missing_message() {
    let h = host(Os::Other, Some("/opt/app"), Some("/home/u/proj"), &["/opt/app/ffmpeg_bin/ffmpeg"]);
    assert_eq!(
        ffprobe_exe(&h),
        Err("ffprobe not found in ffmpeg_bin/. Please run the setup script first.".to_string())
    );
    assert_eq!(ffmpeg_exe(&h), Ok("/opt/app/ffmpeg_bin/ffmpeg".to_string()));
    assert!(!check_ffmpeg(&h));
}

#[test]
fn check_ffmpeg_needs_both_tools() {
    let h = host(
        Os::Other,
        Some("/opt/app"),
        None,
        &["/opt/app/ffmpeg_bin/ffmpeg", "/opt/app/ffmpeg_bin/ffprobe"],
    );
    assert!(check_ffmpeg(&h));
}

#[test]
fn venv_bin_dir_prefers_environment_with_python() {
    let h = host(Os::Other, Some("/opt/app"), Some("/home/u/proj"), &["/home/u/proj/.venv/bin/python"]);
    assert_eq!(h.get_venv_bin_dir(), Ok("/home/u/proj/.venv/bin".to_string()));
    assert!(h.check_environment());
    assert_eq!(h.python_exe(), Ok("/home/u/proj/.venv/bin/python".to_string()));
    assert_eq!(
        h.venv_python_candidates(),
        vec![
            "/opt/app/.venv/bin/python".to_string(),
            "/home/u/proj/.venv/bin/python".to_string(),
            "/home/u/proj/../.venv/bin/python".to_string(),
        ]
    );
}

#[test]
fn venv_bin_dir_falls_back_to_first_candidate() {
    let h = host(Os::Windows, Some("/opt/app"), Some("/home/u/proj"), &[]);
    assert_eq!(h.get_venv_bin_dir(), Ok("/opt/app/.venv/Scripts".to_string()));
    assert!(!h.check_environment());
    assert_eq!(
        h.python_exe(),
        Err("Python not found at /opt/app/.venv/Scripts/python.exe. Please initialize the environment first."
            .to_string())
    );
    let none = host(Os::Other, None, None, &[]);
    assert_eq!(none.get_venv_bin_dir(), Ok("bin".to_string()));
}

#[test]
fn script_resolution_order_and_error() {
    let h = host(Os::Other, None, Some("/w"), &["/w/../scripts/worker.py"]);
    assert_eq!(h.resolve_script("/res/scripts/worker.py", "worker.py"), Ok("/w/../scripts/worker.py".to_string()));
    let found = host(Os::Other, None, Some("/w"), &["/res/scripts/worker.py", "/w/scripts/worker.py"]);
    assert_eq!(found.resolve_script("/res/scripts/worker.py", "worker.py"), Ok("/res/scripts/worker.py".to_string()));
    let missing = host(Os::Other, None, Some("/w"), &[]);
    assert_eq!(
        missing.resolve_script("/res/scripts/setup-env.sh", "setup-env.sh"),
        Err("setup-env.sh not found. Searched: \"/w/scripts/setup-env.sh\" and \"/w/../scripts/setup-env.sh\"".to_string())
    );
    assert_eq!(
        missing.script_candidates("worker.py"),
        vec!["/w/scripts/worker.py".to_string(), "/w/../scripts/worker.py".to_string()]
    );
}

#[test]
fn deep_filter_program_name() {
    assert_eq!(deep_filter_exe("/v/bin", Os::Other), "/v/bin/deepFilter");
    assert_eq!(deep_filter_exe("/v/Scripts", Os::Windows), "/v/Scripts/deepFilter.exe");
}

#[test]
fn output_dir_defaults_to_enhanced_beside_input() {
    assert_eq!(resolve_output_dir("/music/take1.wav", ""), Ok("/music/enhanced".to_string()));
    assert_eq!(resolve_output_dir("take1.wav", ""), Ok("enhanced".to_string()));
    assert_eq!(resolve_output_dir("/music/take1.wav", "/out"), Ok("/out".to_string()));
    assert_eq!(resolve_output_dir("/", ""), Err("Unable to resolve parent directory".to_string()));
    assert_eq!(resolve_output_dir("", ""), Err("Unable to resolve parent directory".to_string()));
}
