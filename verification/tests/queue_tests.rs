use audio_purifai::queue::{
    effective_concurrency, launch_args, output_message, JobAction, JobEventKind, JobInput, JobPhase, JobRun,
    QueueJob,
};

fn job(post_filter: bool) -> QueueJob {
    QueueJob {
        id: "job-1".to_string(),
        input_path: "/music/take1.wav".to_string(),
        output_dir: String::new(),
        post_filter,
    }
}

fn emitted(actions: &[JobAction]) -> Vec<(String, String, Option<String>, bool)> {
    actions
        .iter()
        .filter_map(|a| match a {
            JobAction::Emit { kind, event, required } => {
                Some((kind.name().to_string(), event.id.clone(), event.message.clone(), *required))
            }
            JobAction::Kill => None,
        })
        .collect()
}

#[test]
fn launch_args_with_and_without_post_filter() {
    assert_eq!(launch_args(&job(false), "/out"), vec!["-o", "/out", "/music/take1.wav"]);
    assert_eq!(launch_args(&job(true), "/out"), vec!["-o", "/out", "--pf", "/music/take1.wav"]);
}

#[test]
fn output_message_trims_and_drops_blank_lines() {
    assert_eq!(output_message("  50% done \r\n"), Some("50% done".to_string()));
    assert_eq!(output_message(" \t "), None);
}

#[test]
fn event_names() {
    assert_eq!(JobEventKind::Start.name(), "job:start");
    assert_eq!(JobEventKind::Progress.name(), "job:progress");
    assert_eq!(JobEventKind::Done.name(), "job:done");
    assert_eq!(JobEventKind::Error.name(), "job:error");
    assert_eq!(JobEventKind::Cancelled.name(), "job:cancelled");
}

#[test]
fn concurrency_is_at_least_one() {
    assert_eq!(effective_concurrency(0), 1);
    assert_eq!(effective_concurrency(1), 1);
    assert_eq!(effective_concurrency(4), 4);
}

#[test]
fn cancelled_before_start_reports_only_cancellation() {
    let mut run = JobRun::new(&job(false));
    let step = run.step(JobInput::Begin { cancelled: true });
    assert_eq!(
        emitted(&step.actions),
        vec![("job:cancelled".to_string(), "job-1".to_string(), Some("Cancelled before start".to_string()), true)]
    );
    assert_eq!(step.outcome, Some(Ok(())));
    assert_eq!(run.phase(), JobPhase::Finished);
    let later = run.step(JobInput::Exited { success: true, code: Some(0) });
    assert!(later.actions.is_empty());
    assert_eq!(later.outcome, None);
}

#[test]
fn successful_run_reports_start_progress_done() {
    let mut run = JobRun::new(&job(true));
    let s = run.step(JobInput::Begin { cancelled: false });
    assert_eq!(emitted(&s.actions), vec![("job:start".to_string(), "job-1".to_string(), None, true)]);
    assert_eq!(s.outcome, None);
    let p = run.step(JobInput::Output("loading".to_string()));
    assert_eq!(
        emitted(&p.actions),
        vec![("job:progress".to_string(), "job-1".to_string(), Some("loading".to_string()), false)]
    );
    let d = run.step(JobInput::Exited { success: true, code: Some(0) });
    assert_eq!(emitted(&d.actions), vec![("job:done".to_string(), "job-1".to_string(), None, true)]);
    assert_eq!(d.outcome, Some(Ok(())));
}

#[test]
fn failed_run_reports_last_output_line() {
    let mut run = JobRun::new(&job(false));
    run.step(JobInput::Begin { cancelled: false });
    run.step(JobInput::Output("first".to_string()));
    run.step(JobInput::Output("CUDA out of memory".to_string()));
    let e = run.step(JobInput::Exited { success: false, code: Some(1) });
    assert_eq!(
        emitted(&e.actions),
        vec![("job:error".to_string(), "job-1".to_string(), Some("CUDA out of memory".to_string()), true)]
    );
    assert_eq!(e.outcome, Some(Ok(())));
}

#[test]
fn failed_silent_run_reports_exit_code() {
    let mut run = JobRun::new(&job(false));
    run.step(JobInput::Begin { cancelled: false });
    let e = run.step(JobInput::Exited { success: false, code: Some(2) });
    assert_eq!(
        emitted(&e.actions)[0].2,
        Some("deep-filter exited with code Some(2)".to_string())
    );
    let mut killed = JobRun::new(&job(false));
    killed.step(JobInput::Begin { cancelled: false });
    let k = killed.step(JobInput::Exited { success: false, code: None });
    assert_eq!(emitted(&k.actions)[0].2, Some("deep-filter exited with code None".to_string()));
}

#[test]
fn cancel_while_running_kills_then_reports() {
    let mut run = JobRun::new(&job(false));
    run.step(JobInput::Begin { cancelled: false });
    let c = run.step(JobInput::CancelRequested);
    assert!(matches!(c.actions[0], JobAction::Kill));
    assert_eq!(
        emitted(&c.actions),
        vec![("job:cancelled".to_string(), "job-1".to_string(), Some("Cancelled by user".to_string()), true)]
    );
    assert_eq!(c.outcome, Some(Ok(())));
}

#[test]
fn spawn_failure_reports_error_and_fails() {
    let mut run = JobRun::new(&job(false));
    run.step(JobInput::Begin { cancelled: false });
    let f = run.step(JobInput::SpawnFailed { not_found: true, detail: "No such file".to_string() });
    let msg = "deepFilter not found. Please click 'Initialize Environment' first.".to_string();
    assert_eq!(emitted(&f.actions), vec![("job:error".to_string(), "job-1".to_string(), Some(msg.clone()), false)]);
    assert_eq!(f.outcome, Some(Err(msg)));
    let mut other = JobRun::new(&job(false));
    other.step(JobInput::Begin { cancelled: false });
    let g = other.step(JobInput::SpawnFailed { not_found: false, detail: "Permission denied".to_string() });
    assert_eq!(g.outcome, Some(Err("Permission denied".to_string())));
}

#[test]
fn at_most_one_terminal_event_on_a_concrete_run() {
    let mut run = JobRun::new(&job(false));
    let inputs = vec![
        JobInput::Begin { cancelled: false },
        JobInput::Output("a".to_string()),
        JobInput::Exited { success: true, code: Some(0) },
        JobInput::CancelRequested,
        JobInput::Exited { success: false, code: Some(1) },
        JobInput::Output("late".to_string()),
    ];
    let mut names = Vec::new();
    for i in inputs {
        let s = run.step(i);
        for e in emitted(&s.actions) {
            names.push(e.0);
        }
    }
    assert_eq!(names, vec!["job:start", "job:progress", "job:done"]);
}

#[test]
fn wait_failure_ends_quietly() {
    let mut run = JobRun::new(&job(false));
    run.step(JobInput::Begin { cancelled: false });
    let w = run.step(JobInput::WaitFailed);
    assert!(w.actions.is_empty());
    assert_eq!(w.outcome, Some(Ok(())));
}

#[test]
fn inputs_before_start_are_ignored() {
    let mut run = JobRun::new(&job(false));
    let s = run.step(JobInput::Output("early".to_string()));
    assert!(s.actions.is_empty());
    assert_eq!(run.phase(), JobPhase::Pending);
}

#[test]
fn progress_only_after_start_and_nothing_after_end() {
    let mut run = JobRun::new(&job(false));
    let mut names = Vec::new();
    let inputs = vec![
        JobInput::Output("too early".to_string()),
        JobInput::Begin { cancelled: false },
        JobInput::Output("working".to_string()),
        JobInput::CancelRequested,
        JobInput::Output("after cancel".to_string()),
        JobInput::Exited { success: true, code: Some(0) },
    ];
    for i in inputs {
        let s = run.step(i);
        for e in emitted(&s.actions) {
            names.push(e.0);
        }
    }
    assert_eq!(names, vec!["job:start", "job:progress", "job:cancelled"]);
}
