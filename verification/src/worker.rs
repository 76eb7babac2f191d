//! The persistent model worker: how its launch is judged from its first
//! answer, which job events its later answers report, and the lines written
//! to it.

use vstd::prelude::*;
use crate::paths::{ffmpeg_exe, ffprobe_exe, texts, tool_lookup, HostPaths};
use crate::queue::{opt_text, JobEvent, JobEventKind};
use crate::text::same_text;

verus! {

/// One line of the worker's answers.
pub struct WorkerResponse {
    pub id: Option<String>,
    pub status: String,
    pub message: Option<String>,
    pub device: Option<String>,
    pub output: Option<String>,
}

/// The model's state as reported to the user.
pub struct ModelStatusEvent {
    pub status: String,
    pub message: Option<String>,
    pub device: Option<String>,
}

/// A request to enhance one file, as sent to the worker.
pub struct EnhanceCommand {
    pub cmd: String,
    pub id: String,
    pub input: String,
    pub output_dir: String,
    pub post_filter: bool,
    pub media_type: String,
}

/// Whether a status event has the given status, message and device.
pub open spec fn is_status(
    e: ModelStatusEvent,
    status: Seq<char>,
    message: Option<Seq<char>>,
    device: Option<Seq<char>>,
) -> bool {
    e.status@ == status && opt_text(e.message) == message && opt_text(e.device) == device
}

/// The model is being loaded.
pub fn loading_status() -> (r: ModelStatusEvent)
    ensures
        is_status(r, "loading"@, Some("Loading model into GPU\u{2026}"@), None),
{
    ModelStatusEvent {
        status: String::from_str("loading"),
        message: Some(String::from_str("Loading model into GPU\u{2026}")),
        device: None,
    }
}

fn error_status(message: &String) -> (r: ModelStatusEvent)
    ensures
        is_status(r, "error"@, Some(message@), None),
{
    ModelStatusEvent {
        status: String::from_str("error"),
        message: Some(message.clone()),
        device: None,
    }
}

/// The worker stopped answering after it was ready.
pub fn worker_exited_status() -> (r: ModelStatusEvent)
    ensures
        is_status(r, "error"@, Some("Worker process exited unexpectedly"@), None),
{
    let msg = String::from_str("Worker process exited unexpectedly");
    error_status(&msg)
}

/// What became of an attempt to start the worker.
pub enum LaunchSignal {
    /// The process could not be started; the text describes why.
    SpawnFailed(String),
    /// The process started without a pipe to its input (`stdin`) or from its output.
    PipeMissing { stdin: bool },
    /// Its output ended, or could not be read, before its first line.
    Closed,
    /// No first line came within the time allowed.
    TimedOut,
    /// The first line is not a worker answer; the text is the parse error.
    Malformed(String),
    /// The first line is this answer.
    Answered(WorkerResponse),
}

/// What to do about a launch: whether to stop the process, which status to
/// report, and the device it runs on or the error.
pub struct LaunchDecision {
    pub kill: bool,
    pub status: Option<ModelStatusEvent>,
    pub result: Result<String, String>,
}

/// A launch that failed with `msg`, stopping the process when `kill`, and
/// reporting the failure as the model's status when `report`.
pub open spec fn is_failure(d: LaunchDecision, kill: bool, report: bool, msg: Seq<char>) -> bool {
    &&& d.kill == kill
    &&& d.result matches Err(e) && e@ == msg
    &&& if report {
        d.status matches Some(s) && is_status(s, "error"@, Some(msg), None)
    } else {
        d.status is None
    }
}

/// The judgement of each outcome of a launch.
pub open spec fn is_launch_decision(signal: LaunchSignal, d: LaunchDecision) -> bool {
    match signal {
        LaunchSignal::SpawnFailed(e) => is_failure(d, false, true, "Failed to spawn worker: "@ + e@),
        LaunchSignal::PipeMissing { stdin } => is_failure(
            d,
            false,
            false,
            if stdin {
                "Failed to capture worker stdin"@
            } else {
                "Failed to capture worker stdout"@
            },
        ),
        LaunchSignal::Closed => is_failure(
            d,
            true,
            true,
            "Worker exited before sending ready signal"@,
        ),
        LaunchSignal::TimedOut => is_failure(
            d,
            true,
            true,
            "Timed out waiting for model to load (120s)"@,
        ),
        LaunchSignal::Malformed(e) => is_failure(d, false, false, "Bad ready signal: "@ + e@),
        LaunchSignal::Answered(resp) => if resp.status@ == "error"@ {
            is_failure(
                d,
                true,
                true,
                match resp.message {
                    Some(m) => m@,
                    None => "Unknown worker error"@,
                },
            )
        } else {
            let device = match resp.device {
                Some(v) => v@,
                None => "unknown"@,
            };
            &&& !d.kill
            &&& d.result matches Ok(v) && v@ == device
            &&& d.status matches Some(s) && is_status(s, "ready"@, None, Some(device))
        },
    }
}

fn failure(kill: bool, report: bool, msg: String) -> (d: LaunchDecision)
    ensures
        is_failure(d, kill, report, msg@),
{
    let status = if report {
        Some(error_status(&msg))
    } else {
        None
    };
    LaunchDecision { kill, status, result: Err(msg) }
}

/// Judges how a launch of the worker went.
pub fn settle_launch(signal: LaunchSignal) -> (d: LaunchDecision)
    ensures
        is_launch_decision(signal, d),
{
    match signal {
        LaunchSignal::SpawnFailed(e) => failure(
            false,
            true,
            String::from_str("Failed to spawn worker: ").concat(e.as_str()),
        ),
        LaunchSignal::PipeMissing { stdin } => failure(
            false,
            false,
            String::from_str(
                if stdin {
                    "Failed to capture worker stdin"
                } else {
                    "Failed to capture worker stdout"
                },
            ),
        ),
        LaunchSignal::Closed => failure(
            true,
            true,
            String::from_str("Worker exited before sending ready signal"),
        ),
        LaunchSignal::TimedOut => failure(
            true,
            true,
            String::from_str("Timed out waiting for model to load (120s)"),
        ),
        LaunchSignal::Malformed(e) => failure(
            false,
            false,
            String::from_str("Bad ready signal: ").concat(e.as_str()),
        ),
        LaunchSignal::Answered(resp) => {
            if same_text(resp.status.as_str(), "error") {
                let msg = match resp.message {
                    Some(m) => m,
                    None => String::from_str("Unknown worker error"),
                };
                failure(true, true, msg)
            } else {
                let device = match resp.device {
                    Some(v) => v,
                    None => String::from_str("unknown"),
                };
                let status = ModelStatusEvent {
                    status: String::from_str("ready"),
                    message: None,
                    device: Some(device.clone()),
                };
                LaunchDecision { kill: false, status: Some(status), result: Ok(device) }
            }
        },
    }
}

/// The job event a later answer of the worker reports: `done` and `error`
/// answers about a job; nothing for other answers or answers without an id.
pub open spec fn is_job_report(resp: WorkerResponse, r: Option<(JobEventKind, JobEvent)>) -> bool {
    match resp.id {
        Some(id) => if resp.status@ == "done"@ {
            r matches Some((k, e)) && k == JobEventKind::Done && e.id@ == id@ && e.message is None
        } else if resp.status@ == "error"@ {
            r matches Some((k, e)) && k == JobEventKind::Error && e.id@ == id@ && opt_text(
                e.message,
            ) == opt_text(resp.message)
        } else {
            r is None
        },
        None => r is None,
    }
}

/// The job event that an answer of the worker reports, if any.
pub fn job_report(resp: WorkerResponse) -> (r: Option<(JobEventKind, JobEvent)>)
    ensures
        is_job_report(resp, r),
{
    match resp.id {
        Some(id) => {
            if same_text(resp.status.as_str(), "done") {
                Some((JobEventKind::Done, JobEvent { id, message: None }))
            } else if same_text(resp.status.as_str(), "error") {
                Some((JobEventKind::Error, JobEvent { id, message: resp.message }))
            } else {
                None
            }
        },
        None => None,
    }
}

/// The line that sends a serialised command to the worker, or the error when
/// no worker runs.
pub fn command_line(running: bool, json: &str) -> (r: Result<String, String>)
    ensures
        running ==> (r matches Ok(l) && l@ == json@ + "\n"@),
        !running ==> (r matches Err(e) && e@
            == "Worker is not running. Please load the model first."@),
{
    if running {
        Ok(String::from_str(json).concat("\n"))
    } else {
        Err(String::from_str("Worker is not running. Please load the model first."))
    }
}

/// The stages at which sending to the worker can fail.
#[derive(Clone, Copy, PartialEq, Eq, Structural, Debug)]
pub enum PipeFailure {
    Write,
    Flush,
}

/// The message for a failure to send to the worker.
pub fn pipe_error(stage: PipeFailure, detail: &str) -> (r: String)
    ensures
        r@ == match stage {
            PipeFailure::Write => "Failed to send command to worker: "@ + detail@,
            PipeFailure::Flush => "Failed to flush worker stdin: "@ + detail@,
        },
{
    let head = match stage {
        PipeFailure::Write => "Failed to send command to worker: ",
        PipeFailure::Flush => "Failed to flush worker stdin: ",
    };
    String::from_str(head).concat(detail)
}

/// The line that asks the worker to stop.
pub fn shutdown_line() -> (r: String)
    ensures
        r@ == "{\"cmd\":\"shutdown\"}\n"@,
{
    String::from_str("{\"cmd\":\"shutdown\"}\n")
}

/// The model's state as the user sees it.
pub fn model_status(ready: bool) -> (r: String)
    ensures
        r@ == if ready {
            "ready"@
        } else {
            "not_loaded"@
        },
{
    String::from_str(
        if ready {
            "ready"
        } else {
            "not_loaded"
        },
    )
}

/// A queue is started only when the model is loaded.
pub fn queue_start_check(ready: bool) -> (r: Result<(), String>)
    ensures
        ready ==> r is Ok,
        !ready ==> (r matches Err(e) && e@
            == "Model is not loaded. Please wait for it to finish loading."@),
{
    if ready {
        Ok(())
    } else {
        Err(String::from_str("Model is not loaded. Please wait for it to finish loading."))
    }
}


/// How the worker process is started: the interpreter runs the worker
/// script, with UTF-8 output and the places of `ffmpeg` and `ffprobe` in its
/// environment; its input and output are pipes and its error output is
/// discarded.
pub struct WorkerInvocation {
    pub program: String,
    pub args: Vec<String>,
    pub env: Vec<(String, String)>,
    pub stdin_piped: bool,
    pub stdout_piped: bool,
    pub stderr_discarded: bool,
}

/// A tool's path as handed to the worker: empty when it was not found.
pub open spec fn path_or_empty(r: Result<Seq<char>, Seq<char>>) -> Seq<char> {
    match r {
        Ok(p) => p,
        Err(_) => Seq::empty(),
    }
}

/// The characters of each name and value of an environment list.
pub open spec fn env_texts(v: Seq<(String, String)>) -> Seq<(Seq<char>, Seq<char>)> {
    v.map_values(|p: (String, String)| (p.0@, p.1@))
}

/// The worker's command for the given interpreter and script, with the tools
/// looked up on `tools`.
pub open spec fn is_worker_invocation(
    inv: WorkerInvocation,
    python: Seq<char>,
    script: Seq<char>,
    tools: &HostPaths,
) -> bool {
    &&& inv.program@ == python
    &&& texts(inv.args@) == seq![script]
    &&& env_texts(inv.env@) == seq![
        ("PYTHONIOENCODING"@, "utf-8"@),
        ("FFMPEG_PATH"@, path_or_empty(tool_lookup(tools, "ffmpeg"@))),
        ("FFPROBE_PATH"@, path_or_empty(tool_lookup(tools, "ffprobe"@))),
    ]
    &&& inv.stdin_piped
    &&& inv.stdout_piped
    &&& inv.stderr_discarded
}

fn found_or_empty(r: Result<String, String>) -> (p: String)
    ensures
        p@ == path_or_empty(crate::paths::text_result(r)),
{
    match r {
        Ok(p) => p,
        Err(_) => String::new(),
    }
}

/// The command that starts the worker.
pub fn worker_invocation(python: &str, script: &str, tools: &HostPaths) -> (r: WorkerInvocation)
    ensures
        is_worker_invocation(r, python@, script@, tools),
{
    let mut args: Vec<String> = Vec::new();
    args.push(String::from_str(script));
    let mut env: Vec<(String, String)> = Vec::new();
    env.push((String::from_str("PYTHONIOENCODING"), String::from_str("utf-8")));
    env.push((String::from_str("FFMPEG_PATH"), found_or_empty(ffmpeg_exe(tools))));
    env.push((String::from_str("FFPROBE_PATH"), found_or_empty(ffprobe_exe(tools))));
    let r = WorkerInvocation {
        program: String::from_str(python),
        args,
        env,
        stdin_piped: true,
        stdout_piped: true,
        stderr_discarded: true,
    };
    assert(texts(r.args@) =~= seq![script@]);
    assert(env_texts(r.env@) =~= seq![
        ("PYTHONIOENCODING"@, "utf-8"@),
        ("FFMPEG_PATH"@, path_or_empty(tool_lookup(tools, "ffmpeg"@))),
        ("FFPROBE_PATH"@, path_or_empty(tool_lookup(tools, "ffprobe"@))),
    ]);
    r
}


/// A launch succeeds exactly when the worker's first answer is not an error,
/// and then the device reported is the one it named (or `unknown`), with a
/// `ready` status. The process is stopped exactly when it exists and did not
/// answer, timed out, or answered with an error; every failure that stops it
/// is also reported as an `error` status carrying the failure's message.
pub proof fn law_launch_outcomes(signal: LaunchSignal, d: LaunchDecision)
    requires
        is_launch_decision(signal, d),
    ensures
        (d.result is Ok) == (signal matches LaunchSignal::Answered(r) && r.status@ != "error"@),
        d.kill == (signal is Closed || signal is TimedOut || (signal matches LaunchSignal::Answered(
            r,
        ) && r.status@ == "error"@)),
        d.result matches Ok(dev) ==> match d.status {
            Some(s) => s.status@ == "ready"@ && s.message is None && opt_text(s.device) == Some(
                dev@,
            ),
            None => false,
        },
        d.result matches Ok(dev) ==> match signal {
            LaunchSignal::Answered(r) => dev@ == match r.device {
                Some(v) => v@,
                None => "unknown"@,
            },
            _ => false,
        },
        d.kill ==> match d.status {
            Some(s) => s.status@ == "error"@ && match d.result {
                Err(e) => opt_text(s.message) == Some(e@),
                Ok(_) => false,
            },
            None => false,
        },
{
}

/// Only `done` and `error` answers about a job are reported, each as an event
/// of that job; an error event carries the worker's message, a done event none.
pub proof fn law_job_reports(resp: WorkerResponse, r: Option<(JobEventKind, JobEvent)>)
    requires
        is_job_report(resp, r),
    ensures
        (r is Some) == (resp.id is Some && (resp.status@ == "done"@ || resp.status@ == "error"@)),
        r matches Some((k, e)) ==> (opt_text(resp.id) == Some(e.id@) && (k == JobEventKind::Done
            <==> resp.status@ == "done"@) && (k == JobEventKind::Error <==> resp.status@
            == "error"@) && (k == JobEventKind::Done ==> e.message is None) && (k
            == JobEventKind::Error ==> opt_text(e.message) == opt_text(resp.message))),
{
    reveal_strlit("done");
    reveal_strlit("error");
    assert("done"@[0] != "error"@[0]);
    assert("done"@ != "error"@);
}


/// The worker runs the given script with the given interpreter, and is told
/// where `ffmpeg` and `ffprobe` were found (an empty path when one was not).
pub proof fn law_worker_gets_tool_paths(
    inv: WorkerInvocation,
    python: Seq<char>,
    script: Seq<char>,
    tools: &HostPaths,
)
    requires
        is_worker_invocation(inv, python, script, tools),
    ensures
        inv.program@ == python,
        inv.args@.len() == 1 && inv.args@[0]@ == script,
        inv.env@.len() == 3,
        inv.env@[0].0@ == "PYTHONIOENCODING"@ && inv.env@[0].1@ == "utf-8"@,
        inv.env@[1].0@ == "FFMPEG_PATH"@ && inv.env@[2].0@ == "FFPROBE_PATH"@,
        tool_lookup(tools, "ffmpeg"@) matches Ok(p) ==> inv.env@[1].1@ == p,
        tool_lookup(tools, "ffmpeg"@) is Err ==> inv.env@[1].1@.len() == 0,
        tool_lookup(tools, "ffprobe"@) matches Ok(p) ==> inv.env@[2].1@ == p,
        tool_lookup(tools, "ffprobe"@) is Err ==> inv.env@[2].1@.len() == 0,
{
    assert(texts(inv.args@).len() == inv.args@.len());
    assert(env_texts(inv.env@).len() == inv.env@.len());
    assert(texts(inv.args@)[0] == inv.args@[0]@);
    assert(env_texts(inv.env@)[0] == (inv.env@[0].0@, inv.env@[0].1@));
    assert(env_texts(inv.env@)[1] == (inv.env@[1].0@, inv.env@[1].1@));
    assert(env_texts(inv.env@)[2] == (inv.env@[2].0@, inv.env@[2].1@));
}

} // verus!
