use audio_purifai::paths::{HostPaths, Os};
use audio_purifai::worker::worker_invocation;
use audio_purifai::queue::JobEventKind;
use audio_purifai::worker::{
    command_line, job_report, loading_status, model_status, pipe_error, queue_start_check, settle_launch,
    shutdown_line, worker_exited_status, LaunchSignal, PipeFailure, WorkerResponse,
};

fn response(id: Option<&str>, status: &str, message: Option<&str>, device: Option<&str>) -> WorkerResponse {
    WorkerResponse {
        id: id.map(|s| s.to_string()),
        status: status.to_string(),
        message: message.map(|s| s.to_string()),
        device: device.map(|s| s.to_string()),
        output: None,
    }
}

#[test]
fn ready_answer_gives_device() {
    let d = settle_launch(LaunchSignal::Answered(response(None, "ready", None, Some("cuda"))));
    assert!(!d.kill);
    assert_eq!(d.result, Ok("cuda".to_string()));
    let s = d.status.unwrap();
    assert_eq!(s.status, "ready");
    assert_eq!(s.message, None);
    assert_eq!(s.device, Some("cuda".to_string()));
    let unknown = settle_launch(LaunchSignal::Answered(response(None, "ready", None, None)));
    assert_eq!(unknown.result, Ok("unknown".to_string()));
}

#[test]
fn error_answer_stops_worker() {
    let d = settle_launch(LaunchSignal::Answered(response(None, "error", Some("no GPU"), None)));
    assert!(d.kill);
    assert_eq!(d.result, Err("no GPU".to_string()));
    let s = d.status.unwrap();
    assert_eq!(s.status, "error");
    assert_eq!(s.message, Some("no GPU".to_string()));
    let bare = settle_launch(LaunchSignal::Answered(response(None, "error", None, None)));
    assert_eq!(bare.result, Err("Unknown worker error".to_string()));
}

#[test]
fn launch_failures() {
    let closed = settle_launch(LaunchSignal::Closed);
    assert!(closed.kill);
    assert_eq!(closed.result, Err("Worker exited before sending ready signal".to_string()));
    assert!(closed.status.is_some());
    let timed = settle_launch(LaunchSignal::TimedOut);
    assert!(timed.kill);
    assert_eq!(timed.result, Err("Timed out waiting for model to load (120s)".to_string()));
    let bad = settle_launch(LaunchSignal::Malformed("expected value".to_string()));
    assert!(!bad.kill);
    assert!(bad.status.is_none());
    assert_eq!(bad.result, Err("Bad ready signal: expected value".to_string()));
    let spawn = settle_launch(LaunchSignal::SpawnFailed("not found".to_string()));
    assert!(!spawn.kill);
    assert_eq!(spawn.result, Err("Failed to spawn worker: not found".to_string()));
    assert_eq!(spawn.status.unwrap().message, Some("Failed to spawn worker: not found".to_string()));
    let pipe = settle_launch(LaunchSignal::PipeMissing { stdin: true });
    assert_eq!(pipe.result, Err("Failed to capture worker stdin".to_string()));
    assert!(pipe.status.is_none());
}

#[test]
fn job_reports_from_answers() {
    let (k, e) = job_report(response(Some("j1"), "done", Some("ignored"), None)).unwrap();
    assert_eq!(k, JobEventKind::Done);
    assert_eq!(e.id, "j1");
    assert_eq!(e.message, None);
    let (k, e) = job_report(response(Some("j2"), "error", Some("bad"), None)).unwrap();
    assert_eq!(k, JobEventKind::Error);
    assert_eq!(e.id, "j2");
    assert_eq!(e.message, Some("bad".to_string()));
    assert!(job_report(response(Some("j3"), "progress", None, None)).is_none());
    assert!(job_report(response(None, "done", None, None)).is_none());
}

#[test]
fn lines_sent_to_worker() {
    assert_eq!(command_line(true, "{\"cmd\":\"enhance\"}"), Ok("{\"cmd\":\"enhance\"}\n".to_string()));
    assert_eq!(
        command_line(false, "{}"),
        Err("Worker is not running. Please load the model first.".to_string())
    );
    let mut m = serde_json::Map::new();
    m.insert("cmd".to_string(), serde_json::Value::String("shutdown".to_string()));
    assert_eq!(shutdown_line(), format!("{}\n", serde_json::Value::Object(m)));
    assert_eq!(pipe_error(PipeFailure::Write, "broken pipe"), "Failed to send command to worker: broken pipe");
    assert_eq!(pipe_error(PipeFailure::Flush, "x"), "Failed to flush worker stdin: x");
}

#[test]
fn statuses() {
    assert_eq!(model_status(true), "ready");
    assert_eq!(model_status(false), "not_loaded");
    let l = loading_status();
    assert_eq!(l.status, "loading");
    assert_eq!(l.message, Some("Loading model into GPU…".to_string()));
    let x = worker_exited_status();
    assert_eq!(x.status, "error");
    assert_eq!(x.message, Some("Worker process exited unexpectedly".to_string()));
    assert_eq!(queue_start_check(true), Ok(()));
    assert_eq!(
        queue_start_check(false),
        Err("Model is not loaded. Please wait for it to finish loading.".to_string())
    );
}

#[test]
fn worker_invocation_passes_tool_paths() {
    let tools = HostPaths {
        os: Os::Other,
        exe_dir: Some("/opt/app".to_string()),
        cwd: None,
        existing: vec!["/opt/app/ffmpeg_bin/ffmpeg".to_string()],
    };
    let inv = worker_invocation("/v/bin/python", "/res/scripts/worker.py", &tools);
    assert_eq!(inv.program, "/v/bin/python");
    assert_eq!(inv.args, vec!["/res/scripts/worker.py"]);
    assert_eq!(
        inv.env,
        vec![
            ("PYTHONIOENCODING".to_string(), "utf-8".to_string()),
            ("FFMPEG_PATH".to_string(), "/opt/app/ffmpeg_bin/ffmpeg".to_string()),
            ("FFPROBE_PATH".to_string(), String::new()),
        ]
    );
    assert!(inv.stdin_piped && inv.stdout_piped && inv.stderr_discarded);
}
