//! Enhancement jobs: where each job writes, how the enhancement program is
//! invoked, and the course of one job as a state machine whose steps say which
//! events to report.

use vstd::prelude::*;
use crate::paths::{joined_path, parent_path, path_join, path_parent, text_result};
use crate::text::{optional_code, optional_code_text, trim, trimmed};

verus! {

/// One file to enhance.
pub struct QueueJob {
    pub id: String,
    pub input_path: String,
    pub output_dir: String,
    pub post_filter: bool,
}

/// What is reported about a job: its id and, for some events, a message.
pub struct JobEvent {
    pub id: String,
    pub message: Option<String>,
}

/// The characters of an optional string.
pub open spec fn opt_text(o: Option<String>) -> Option<Seq<char>> {
    match o {
        Some(s) => Some(s@),
        None => None,
    }
}

/// The kinds of job events.
#[derive(Clone, Copy, PartialEq, Eq, Structural, Debug)]
pub enum JobEventKind {
    Start,
    Progress,
    Done,
    Error,
    Cancelled,
}

/// The channel name of each kind of job event.
pub open spec fn event_name(kind: JobEventKind) -> Seq<char> {
    match kind {
        JobEventKind::Start => "job:start"@,
        JobEventKind::Progress => "job:progress"@,
        JobEventKind::Done => "job:done"@,
        JobEventKind::Error => "job:error"@,
        JobEventKind::Cancelled => "job:cancelled"@,
    }
}

impl JobEventKind {
    /// The channel name under which the event is reported.
    pub fn name(&self) -> (r: &'static str)
        ensures
            r@ == event_name(*self),
    {
        match self {
            JobEventKind::Start => "job:start",
            JobEventKind::Progress => "job:progress",
            JobEventKind::Done => "job:done",
            JobEventKind::Error => "job:error",
            JobEventKind::Cancelled => "job:cancelled",
        }
    }
}

/// Where a job writes: the chosen directory when one was given, else
/// `enhanced` beside the input file.
pub open spec fn output_dir_for(input_path: Seq<char>, requested: Seq<char>) -> Result<
    Seq<char>,
    Seq<char>,
> {
    if requested.len() > 0 {
        Ok(requested)
    } else {
        match parent_path(input_path) {
            Some(p) => Ok(joined_path(p, "enhanced"@)),
            None => Err("Unable to resolve parent directory"@),
        }
    }
}

/// The directory a job writes to.
pub fn resolve_output_dir(input_path: &str, requested_output: &str) -> (r: Result<String, String>)
    ensures
        text_result(r) == output_dir_for(input_path@, requested_output@),
{
    if requested_output.unicode_len() > 0 {
        return Ok(String::from_str(requested_output));
    }
    match path_parent(input_path) {
        Some(p) => Ok(path_join(p.as_str(), "enhanced")),
        None => Err(String::from_str("Unable to resolve parent directory")),
    }
}

/// The arguments of the enhancement program: the output directory, the
/// post-filter switch when asked for, and the input file.
pub open spec fn deep_filter_args(job_input: Seq<char>, post_filter: bool, out_dir: Seq<char>) -> Seq<
    Seq<char>,
> {
    if post_filter {
        seq!["-o"@, out_dir, "--pf"@, job_input]
    } else {
        seq!["-o"@, out_dir, job_input]
    }
}

/// The arguments that run the enhancement program on `job`, writing to `out_dir`.
pub fn launch_args(job: &QueueJob, out_dir: &str) -> (r: Vec<String>)
    ensures
        crate::paths::texts(r@) == deep_filter_args(job.input_path@, job.post_filter, out_dir@),
{
    let mut r: Vec<String> = Vec::new();
    r.push(String::from_str("-o"));
    r.push(String::from_str(out_dir));
    if job.post_filter {
        r.push(String::from_str("--pf"));
    }
    r.push(job.input_path.clone());
    assert(crate::paths::texts(r@) =~= deep_filter_args(job.input_path@, job.post_filter, out_dir@));
    r
}

/// A line of program output as it is reported: trimmed, and dropped when blank.
pub open spec fn reported_line(line: Seq<char>) -> Option<Seq<char>> {
    if trimmed(line).len() > 0 {
        Some(trimmed(line))
    } else {
        None
    }
}

/// The text of a line of program output to report, if it is not blank.
pub fn output_message(line: &str) -> (r: Option<String>)
    ensures
        opt_text(r) == reported_line(line@),
{
    let t = trim(line);
    if t.as_str().unicode_len() > 0 {
        Some(t)
    } else {
        None
    }
}


/// Where a job is in its course.
#[derive(Clone, Copy, PartialEq, Eq, Structural, Debug)]
pub enum JobPhase {
    /// Not started: the cancel flag has not been looked at yet.
    Pending,
    /// Started: the program is being launched or runs.
    Running,
    /// Over: nothing more is reported.
    Finished,
}

/// What happens to a job, as the caller observes it.
pub enum JobInput {
    /// The job is taken up; `cancelled` tells whether cancellation was asked for.
    Begin { cancelled: bool },
    /// A non-blank line of the program's output, trimmed.
    Output(String),
    /// Cancellation was asked for while the program runs.
    CancelRequested,
    /// The program ended; `code` is its exit code where it has one.
    Exited { success: bool, code: Option<i32> },
    /// The program ended but its exit status could not be read.
    WaitFailed,
    /// The program could not be started; `not_found` tells whether it is
    /// missing, `detail` describes the failure.
    SpawnFailed { not_found: bool, detail: String },
}

/// What the caller is to do after a step.
pub enum JobAction {
    /// Report `event` under the name of `kind`; when `required`, a failure to
    /// deliver it ends the job with that failure.
    Emit { kind: JobEventKind, event: JobEvent, required: bool },
    /// Stop the program.
    Kill,
}

/// The actions of one step, and the job's result when the step ends it.
pub struct JobStep {
    pub actions: Vec<JobAction>,
    pub outcome: Option<Result<(), String>>,
}

/// A job in progress: its id, its phase, and the output lines seen so far.
pub struct JobRun {
    id: String,
    phase: JobPhase,
    output_lines: Vec<String>,
}

/// The abstract state of a job: its phase and the output lines seen so far.
pub struct RunModel {
    pub phase: JobPhase,
    pub lines: Seq<Seq<char>>,
}

/// [`JobInput`] taken by the characters it holds.
pub enum InputModel {
    Begin(bool),
    Output(Seq<char>),
    CancelRequested,
    Exited(bool, Option<i32>),
    WaitFailed,
    SpawnFailed(bool, Seq<char>),
}

/// [`JobAction`] taken by the characters it holds (the event's id is always
/// the job's own).
pub enum ActionModel {
    Emit(JobEventKind, Option<Seq<char>>, bool),
    Kill,
}

impl View for JobInput {
    type V = InputModel;

    open spec fn view(&self) -> InputModel {
        match self {
            JobInput::Begin { cancelled } => InputModel::Begin(*cancelled),
            JobInput::Output(l) => InputModel::Output(l@),
            JobInput::CancelRequested => InputModel::CancelRequested,
            JobInput::Exited { success, code } => InputModel::Exited(*success, *code),
            JobInput::WaitFailed => InputModel::WaitFailed,
            JobInput::SpawnFailed { not_found, detail } => InputModel::SpawnFailed(
                *not_found,
                detail@,
            ),
        }
    }
}

impl View for JobAction {
    type V = ActionModel;

    open spec fn view(&self) -> ActionModel {
        match self {
            JobAction::Emit { kind, event, required } => ActionModel::Emit(
                *kind,
                opt_text(event.message),
                *required,
            ),
            JobAction::Kill => ActionModel::Kill,
        }
    }
}

impl View for JobRun {
    type V = RunModel;

    closed spec fn view(&self) -> RunModel {
        RunModel { phase: self.phase, lines: crate::paths::texts(self.output_lines@) }
    }
}

/// The actions of a sequence of [`JobAction`]s, each taken by its view.
pub open spec fn action_views(v: Seq<JobAction>) -> Seq<ActionModel> {
    v.map_values(|a: JobAction| a@)
}

/// The message reported when the program fails: its last line of output, or
/// its exit code when it printed nothing.
pub open spec fn exit_detail(lines: Seq<Seq<char>>, code: Option<i32>) -> Seq<char> {
    if lines.len() > 0 {
        lines.last()
    } else {
        "deep-filter exited with code "@ + optional_code(code)
    }
}

/// The message reported when the program cannot be started.
pub open spec fn spawn_detail(not_found: bool, detail: Seq<char>) -> Seq<char> {
    if not_found {
        "deepFilter not found. Please click 'Initialize Environment' first."@
    } else {
        detail
    }
}

/// A job's state when it is over.
pub open spec fn finished(m: RunModel) -> RunModel {
    RunModel { phase: JobPhase::Finished, lines: m.lines }
}

/// One step of a job: the next state, the actions, and the result when the
/// step ends the job.
pub open spec fn step_model(m: RunModel, i: InputModel) -> (
    RunModel,
    Seq<ActionModel>,
    Option<Result<(), Seq<char>>>,
) {
    match m.phase {
        JobPhase::Pending => match i {
            InputModel::Begin(true) => (
                finished(m),
                seq![
                    ActionModel::Emit(
                        JobEventKind::Cancelled,
                        Some("Cancelled before start"@),
                        true,
                    ),
                ],
                Some(Ok(())),
            ),
            InputModel::Begin(false) => (
                RunModel { phase: JobPhase::Running, lines: m.lines },
                seq![ActionModel::Emit(JobEventKind::Start, None, true)],
                None,
            ),
            _ => (m, Seq::empty(), None),
        },
        JobPhase::Running => match i {
            InputModel::Begin(_) => (m, Seq::empty(), None),
            InputModel::Output(l) => (
                RunModel { phase: JobPhase::Running, lines: m.lines.push(l) },
                seq![ActionModel::Emit(JobEventKind::Progress, Some(l), false)],
                None,
            ),
            InputModel::CancelRequested => (
                finished(m),
                seq![
                    ActionModel::Kill,
                    ActionModel::Emit(JobEventKind::Cancelled, Some("Cancelled by user"@), true),
                ],
                Some(Ok(())),
            ),
            InputModel::Exited(success, code) => (
                finished(m),
                if success {
                    seq![ActionModel::Emit(JobEventKind::Done, None, true)]
                } else {
                    seq![
                        ActionModel::Emit(
                            JobEventKind::Error,
                            Some(exit_detail(m.lines, code)),
                            true,
                        ),
                    ]
                },
                Some(Ok(())),
            ),
            InputModel::WaitFailed => (finished(m), Seq::empty(), Some(Ok(()))),
            InputModel::SpawnFailed(not_found, detail) => (
                finished(m),
                seq![
                    ActionModel::Emit(
                        JobEventKind::Error,
                        Some(spawn_detail(not_found, detail)),
                        false,
                    ),
                ],
                Some(Err(spawn_detail(not_found, detail))),
            ),
        },
        JobPhase::Finished => (m, Seq::empty(), None),
    }
}

/// The result of a step taken by the characters it holds.
pub open spec fn outcome_view(o: Option<Result<(), String>>) -> Option<Result<(), Seq<char>>> {
    match o {
        Some(Ok(())) => Some(Ok(())),
        Some(Err(e)) => Some(Err(e@)),
        None => None,
    }
}

impl JobRun {
    /// A job not yet started.
    pub fn new(job: &QueueJob) -> (r: JobRun)
        ensures
            r@ == (RunModel { phase: JobPhase::Pending, lines: Seq::empty() }),
            r.id() == job.id@,
    {
        let r = JobRun { id: job.id.clone(), phase: JobPhase::Pending, output_lines: Vec::new() };
        assert(r@.lines =~= Seq::<Seq<char>>::empty());
        r
    }

    /// The id of the job.
    pub closed spec fn id(&self) -> Seq<char> {
        self.id@
    }

    /// The phase of the job.
    pub fn phase(&self) -> (r: JobPhase)
        ensures
            r == self@.phase,
    {
        self.phase
    }

    fn event(&self, kind: JobEventKind, message: Option<String>, required: bool) -> (r: JobAction)
        ensures
            r@ == ActionModel::Emit(kind, opt_text(message), required),
            r matches JobAction::Emit { event, .. } && event.id@ == self.id(),
    {
        JobAction::Emit { kind, event: JobEvent { id: self.id.clone(), message }, required }
    }

    /// The message reported when the program fails.
    fn failure_detail(&self, code: Option<i32>) -> (r: String)
        ensures
            r@ == exit_detail(self@.lines, code),
    {
        let n = self.output_lines.len();
        if n > 0 {
            assert(self@.lines.last() == self.output_lines@[n - 1]@);
            self.output_lines[n - 1].clone()
        } else {
            String::from_str("deep-filter exited with code ").concat(
                optional_code_text(code).as_str(),
            )
        }
    }

    /// Takes one observation of the job and says what to report and whether
    /// the job is over; every reported event carries the job's id.
    pub fn step(&mut self, input: JobInput) -> (r: JobStep)
        ensures
            (final(self)@, action_views(r.actions@), outcome_view(r.outcome)) == step_model(
                old(self)@,
                input@,
            ),
            final(self).id() == old(self).id(),
            forall|k: int|
                0 <= k < r.actions@.len() ==> (#[trigger] r.actions@[k] matches JobAction::Emit {
                    event,
                    ..
                } ==> event.id@ == old(self).id()),
    {
        let ghost m0 = self@;
        let mut actions: Vec<JobAction> = Vec::new();
        let mut outcome: Option<Result<(), String>> = None;
        match self.phase {
            JobPhase::Pending => match input {
                JobInput::Begin { cancelled } => {
                    if cancelled {
                        actions.push(
                            self.event(
                                JobEventKind::Cancelled,
                                Some(String::from_str("Cancelled before start")),
                                true,
                            ),
                        );
                        self.phase = JobPhase::Finished;
                        outcome = Some(Ok(()));
                    } else {
                        actions.push(self.event(JobEventKind::Start, None, true));
                        self.phase = JobPhase::Running;
                    }
                },
                _ => {},
            },
            JobPhase::Running => match input {
                JobInput::Begin { .. } => {},
                JobInput::Output(line) => {
                    let a = self.event(JobEventKind::Progress, Some(line.clone()), false);
                    actions.push(a);
                    self.output_lines.push(line);
                    assert(self@.lines =~= m0.lines.push(input@->Output_0));
                },
                JobInput::CancelRequested => {
                    actions.push(JobAction::Kill);
                    actions.push(
                        self.event(
                            JobEventKind::Cancelled,
                            Some(String::from_str("Cancelled by user")),
                            true,
                        ),
                    );
                    self.phase = JobPhase::Finished;
                    outcome = Some(Ok(()));
                },
                JobInput::Exited { success, code } => {
                    if success {
                        actions.push(self.event(JobEventKind::Done, None, true));
                    } else {
                        let detail = self.failure_detail(code);
                        actions.push(self.event(JobEventKind::Error, Some(detail), true));
                    }
                    self.phase = JobPhase::Finished;
                    outcome = Some(Ok(()));
                },
                JobInput::WaitFailed => {
                    self.phase = JobPhase::Finished;
                    outcome = Some(Ok(()));
                },
                JobInput::SpawnFailed { not_found, detail } => {
                    let text = if not_found {
                        String::from_str(
                            "deepFilter not found. Please click 'Initialize Environment' first.",
                        )
                    } else {
                        detail
                    };
                    actions.push(self.event(JobEventKind::Error, Some(text.clone()), false));
                    self.phase = JobPhase::Finished;
                    outcome = Some(Err(text));
                },
            },
            JobPhase::Finished => {},
        }
        let r = JobStep { actions, outcome };
        assert(action_views(r.actions@) =~= step_model(m0, input@).1);
        r
    }
}


/// A job not yet started.
pub open spec fn fresh_run() -> RunModel {
    RunModel { phase: JobPhase::Pending, lines: Seq::empty() }
}

/// The state after a sequence of observations, and all actions taken on the way.
pub open spec fn run_inputs(m: RunModel, inputs: Seq<InputModel>) -> (RunModel, Seq<ActionModel>)
    decreases inputs.len(),
{
    if inputs.len() == 0 {
        (m, Seq::empty())
    } else {
        let before = run_inputs(m, inputs.drop_last());
        let after = step_model(before.0, inputs.last());
        (after.0, before.1 + after.1)
    }
}

/// Whether an action reports the end of a job: done, failed or cancelled.
pub open spec fn is_terminal(a: ActionModel) -> bool {
    match a {
        ActionModel::Emit(k, _, _) => k == JobEventKind::Done || k == JobEventKind::Error || k
            == JobEventKind::Cancelled,
        ActionModel::Kill => false,
    }
}

/// How many actions report the end of a job.
pub open spec fn terminal_count(acts: Seq<ActionModel>) -> nat
    decreases acts.len(),
{
    if acts.len() == 0 {
        0
    } else {
        terminal_count(acts.drop_last()) + if is_terminal(acts.last()) {
            1nat
        } else {
            0nat
        }
    }
}

/// The messages of the progress events among the actions, in order.
pub open spec fn progress_messages(acts: Seq<ActionModel>) -> Seq<Seq<char>>
    decreases acts.len(),
{
    if acts.len() == 0 {
        Seq::empty()
    } else {
        let before = progress_messages(acts.drop_last());
        match acts.last() {
            ActionModel::Emit(JobEventKind::Progress, Some(msg), _) => before.push(msg),
            _ => before,
        }
    }
}

proof fn lemma_terminal_count_add(a: Seq<ActionModel>, b: Seq<ActionModel>)
    ensures
        terminal_count(a + b) == terminal_count(a) + terminal_count(b),
    decreases b.len(),
{
    if b.len() == 0 {
        assert(a + b =~= a);
    } else {
        lemma_terminal_count_add(a, b.drop_last());
        assert((a + b).drop_last() =~= a + b.drop_last());
    }
}

proof fn lemma_progress_messages_add(a: Seq<ActionModel>, b: Seq<ActionModel>)
    ensures
        progress_messages(a + b) == progress_messages(a) + progress_messages(b),
    decreases b.len(),
{
    if b.len() == 0 {
        assert(a + b =~= a);
        assert(progress_messages(a) + progress_messages(b) =~= progress_messages(a));
    } else {
        lemma_progress_messages_add(a, b.drop_last());
        assert((a + b).drop_last() =~= a + b.drop_last());
        match b.last() {
            ActionModel::Emit(JobEventKind::Progress, Some(msg), _) => {
                assert(progress_messages(a) + progress_messages(b) =~= (progress_messages(a)
                    + progress_messages(b.drop_last())).push(msg));
            },
            _ => {},
        }
    }
}

proof fn lemma_step_terminals(m: RunModel, i: InputModel)
    ensures
        terminal_count(step_model(m, i).1) <= 1,
        m.phase == JobPhase::Finished ==> terminal_count(step_model(m, i).1) == 0,
        step_model(m, i).0.phase != JobPhase::Finished ==> terminal_count(step_model(m, i).1)
            == 0,
        step_model(m, i).0.lines == m.lines + progress_messages(step_model(m, i).1),
        m.phase == JobPhase::Finished ==> step_model(m, i).0.phase == JobPhase::Finished,
{
    let acts = step_model(m, i).1;
    reveal_with_fuel(terminal_count, 3);
    reveal_with_fuel(progress_messages, 3);
    assert(m.lines + Seq::<Seq<char>>::empty() =~= m.lines);
    if acts.len() == 2 {
        assert(acts.drop_last().drop_last() =~= Seq::<ActionModel>::empty());
    }
    if acts.len() == 1 {
        assert(acts.drop_last() =~= Seq::<ActionModel>::empty());
        match i {
            InputModel::Output(l) => {
                assert(m.lines + seq![l] =~= m.lines.push(l));
            },
            _ => {},
        }
    }
}

/// A job reports its end at most once, and not at all while it is not over,
/// whatever is observed and in whatever order.
pub proof fn law_at_most_one_terminal_event(inputs: Seq<InputModel>)
    ensures
        terminal_count(run_inputs(fresh_run(), inputs).1) <= 1,
        run_inputs(fresh_run(), inputs).0.phase != JobPhase::Finished ==> terminal_count(
            run_inputs(fresh_run(), inputs).1,
        ) == 0,
    decreases inputs.len(),
{
    if inputs.len() > 0 {
        law_at_most_one_terminal_event(inputs.drop_last());
        let before = run_inputs(fresh_run(), inputs.drop_last());
        let after = step_model(before.0, inputs.last());
        lemma_step_terminals(before.0, inputs.last());
        lemma_terminal_count_add(before.1, after.1);
    }
}

/// The output lines a job keeps are exactly the messages of its progress
/// events, in order.
pub proof fn law_lines_are_progress_messages(inputs: Seq<InputModel>)
    ensures
        run_inputs(fresh_run(), inputs).0.lines == progress_messages(
            run_inputs(fresh_run(), inputs).1,
        ),
    decreases inputs.len(),
{
    if inputs.len() == 0 {
        assert(progress_messages(Seq::<ActionModel>::empty()) =~= Seq::<Seq<char>>::empty());
    } else {
        law_lines_are_progress_messages(inputs.drop_last());
        let before = run_inputs(fresh_run(), inputs.drop_last());
        let after = step_model(before.0, inputs.last());
        lemma_step_terminals(before.0, inputs.last());
        lemma_progress_messages_add(before.1, after.1);
    }
}

/// Once a job is over, nothing it observes changes it or makes it report anything.
pub proof fn law_finished_is_final(m: RunModel, i: InputModel)
    requires
        m.phase == JobPhase::Finished,
    ensures
        step_model(m, i) == (m, Seq::<ActionModel>::empty(), None::<Result<(), Seq<char>>>),
{
}

/// A job cancelled before it starts reports only that it was cancelled.
pub proof fn law_cancelled_before_start(inputs: Seq<InputModel>)
    requires
        inputs.len() > 0,
        inputs[0] == InputModel::Begin(true),
    ensures
        run_inputs(fresh_run(), inputs).1 == seq![
            ActionModel::Emit(JobEventKind::Cancelled, Some("Cancelled before start"@), true),
        ],
        run_inputs(fresh_run(), inputs).0.phase == JobPhase::Finished,
    decreases inputs.len(),
{
    if inputs.len() == 1 {
        assert(inputs.drop_last() =~= Seq::<InputModel>::empty());
        assert(Seq::<ActionModel>::empty() + step_model(fresh_run(), inputs[0]).1 =~= step_model(
            fresh_run(),
            inputs[0],
        ).1);
    } else {
        assert(inputs.drop_last()[0] == inputs[0]);
        law_cancelled_before_start(inputs.drop_last());
        let before = run_inputs(fresh_run(), inputs.drop_last());
        assert(before.1 + Seq::<ActionModel>::empty() =~= before.1);
    }
}


/// How many jobs run at once: as many as asked for, and at least one.
pub fn effective_concurrency(requested: usize) -> (r: usize)
    ensures
        r >= 1,
        r == if requested >= 1 {
            requested
        } else {
            1
        },
{
    if requested >= 1 {
        requested
    } else {
        1
    }
}


/// Whether an action reports that a job started.
pub open spec fn is_start(a: ActionModel) -> bool {
    a matches ActionModel::Emit(JobEventKind::Start, _, _)
}

/// A job reports its start at most once, and before anything else.
pub proof fn law_start_comes_first(inputs: Seq<InputModel>)
    ensures
        forall|k: int|
            0 < k < run_inputs(fresh_run(), inputs).1.len() ==> !is_start(
                #[trigger] run_inputs(fresh_run(), inputs).1[k],
            ),
        run_inputs(fresh_run(), inputs).0.phase == JobPhase::Pending ==> run_inputs(
            fresh_run(),
            inputs,
        ).1.len() == 0,
    decreases inputs.len(),
{
    if inputs.len() > 0 {
        law_start_comes_first(inputs.drop_last());
        let before = run_inputs(fresh_run(), inputs.drop_last());
        let after = step_model(before.0, inputs.last());
        let all = before.1 + after.1;
        assert forall|k: int| 0 < k < all.len() implies !is_start(#[trigger] all[k]) by {
            if k >= before.1.len() {
                assert(all[k] == after.1[k - before.1.len()]);
                if is_start(after.1[k - before.1.len()]) {
                    assert(before.0.phase == JobPhase::Pending);
                }
            }
        }
    }
}


/// Whether an action reports progress.
pub open spec fn is_progress(a: ActionModel) -> bool {
    a matches ActionModel::Emit(JobEventKind::Progress, _, _)
}

proof fn lemma_step_shape(m: RunModel, i: InputModel)
    ensures
        forall|k: int|
            0 <= k < step_model(m, i).1.len() && is_terminal(#[trigger] step_model(m, i).1[k])
                ==> k == step_model(m, i).1.len() - 1 && step_model(m, i).0.phase
                == JobPhase::Finished,
        forall|k: int|
            0 <= k < step_model(m, i).1.len() && is_progress(#[trigger] step_model(m, i).1[k])
                ==> m.phase == JobPhase::Running,
        forall|k: int|
            0 <= k < step_model(m, i).1.len() && is_start(#[trigger] step_model(m, i).1[k])
                ==> m.phase == JobPhase::Pending,
        step_model(m, i).0.phase == JobPhase::Running ==> (m.phase == JobPhase::Running || (
        m.phase == JobPhase::Pending && step_model(m, i).1.len() == 1 && is_start(
            step_model(m, i).1[0],
        ))),
        m.phase == JobPhase::Finished ==> step_model(m, i).1.len() == 0,
        m.phase == JobPhase::Finished ==> step_model(m, i).0.phase == JobPhase::Finished,
{
}

/// Nothing is reported after a job reports its end: an end event is the last
/// action of the whole run.
pub proof fn law_nothing_after_end(inputs: Seq<InputModel>)
    ensures
        forall|k: int|
            0 <= k < run_inputs(fresh_run(), inputs).1.len() && is_terminal(
                #[trigger] run_inputs(fresh_run(), inputs).1[k],
            ) ==> k == run_inputs(fresh_run(), inputs).1.len() - 1 && run_inputs(
                fresh_run(),
                inputs,
            ).0.phase == JobPhase::Finished,
    decreases inputs.len(),
{
    if inputs.len() > 0 {
        law_nothing_after_end(inputs.drop_last());
        let before = run_inputs(fresh_run(), inputs.drop_last());
        let after = step_model(before.0, inputs.last());
        lemma_step_shape(before.0, inputs.last());
        let all = before.1 + after.1;
        assert forall|k: int| 0 <= k < all.len() && is_terminal(#[trigger] all[k]) implies k
            == all.len() - 1 && after.0.phase == JobPhase::Finished by {
            if k < before.1.len() {
                assert(all[k] == before.1[k]);
            } else {
                assert(all[k] == after.1[k - before.1.len()]);
            }
        }
    }
}

/// Progress is reported only after the job reported its start: the first
/// action of a run that reports progress is the start event.
pub proof fn law_progress_follows_start(inputs: Seq<InputModel>)
    ensures
        forall|k: int|
            0 <= k < run_inputs(fresh_run(), inputs).1.len() && is_progress(
                #[trigger] run_inputs(fresh_run(), inputs).1[k],
            ) ==> 0 < k && is_start(run_inputs(fresh_run(), inputs).1[0]),
        run_inputs(fresh_run(), inputs).0.phase == JobPhase::Running ==> run_inputs(
            fresh_run(),
            inputs,
        ).1.len() > 0 && is_start(run_inputs(fresh_run(), inputs).1[0]),
    decreases inputs.len(),
{
    if inputs.len() > 0 {
        law_progress_follows_start(inputs.drop_last());
        law_start_comes_first(inputs.drop_last());
        let before = run_inputs(fresh_run(), inputs.drop_last());
        let after = step_model(before.0, inputs.last());
        lemma_step_shape(before.0, inputs.last());
        let all = before.1 + after.1;
        if before.1.len() > 0 {
            assert(all[0] == before.1[0]);
        } else if after.1.len() > 0 {
            assert(all[0] == after.1[0]);
        }
        assert forall|k: int| 0 <= k < all.len() && is_progress(#[trigger] all[k]) implies 0 < k
            && is_start(all[0]) by {
            if k < before.1.len() {
                assert(all[k] == before.1[k]);
            } else {
                assert(all[k] == after.1[k - before.1.len()]);
                assert(before.0.phase == JobPhase::Running);
            }
        }
    }
}


/// When the program ends while the job runs, the job is over and reports
/// exactly one event: done when the program succeeded, and otherwise an error
/// whose message is the last line the program printed (or, when it printed
/// nothing, `deep-filter exited with code ` followed by the `Debug` text of
/// the exit code), never done, however many lines were printed.
pub proof fn law_exit_reports_done_or_last_line(
    lines: Seq<Seq<char>>,
    success: bool,
    code: Option<i32>,
)
    ensures
        ({
            let r = step_model(
                RunModel { phase: JobPhase::Running, lines },
                InputModel::Exited(success, code),
            );
            &&& r.0.phase == JobPhase::Finished
            &&& r.0.lines == lines
            &&& r.2 == Some(Ok::<(), Seq<char>>(()))
            &&& r.1.len() == 1
            &&& success ==> r.1[0] == ActionModel::Emit(JobEventKind::Done, None, true)
            &&& !success ==> r.1[0] == ActionModel::Emit(
                JobEventKind::Error,
                Some(
                    if lines.len() > 0 {
                        lines[lines.len() - 1]
                    } else {
                        "deep-filter exited with code "@ + crate::text::optional_code(code)
                    },
                ),
                true,
            )
            &&& !success ==> forall|k: int|
                0 <= k < r.1.len() ==> !(#[trigger] r.1[k] matches ActionModel::Emit(
                    JobEventKind::Done,
                    _,
                    _,
                ))
        }),
{
}


/// How a job starts: if cancellation was already asked for, it reports only
/// "Cancelled before start" and ends successfully; otherwise it reports its
/// start and runs. While it runs, a line of output is kept and reported as
/// progress with that line; a cancellation stops the program, then reports
/// "Cancelled by user" and ends successfully; a program that cannot be started
/// is reported as an error, not required to be delivered, and ends the job
/// with that error, naming the missing program when it was not found.
pub proof fn law_job_course(lines: Seq<Seq<char>>, line: Seq<char>, not_found: bool, detail: Seq<char>)
    ensures
        step_model(RunModel { phase: JobPhase::Pending, lines }, InputModel::Begin(true)) == (
            RunModel { phase: JobPhase::Finished, lines },
            seq![ActionModel::Emit(JobEventKind::Cancelled, Some("Cancelled before start"@), true)],
            Some(Ok::<(), Seq<char>>(())),
        ),
        step_model(RunModel { phase: JobPhase::Pending, lines }, InputModel::Begin(false)) == (
            RunModel { phase: JobPhase::Running, lines },
            seq![ActionModel::Emit(JobEventKind::Start, None, true)],
            None::<Result<(), Seq<char>>>,
        ),
        ({
            let r = step_model(
                RunModel { phase: JobPhase::Running, lines },
                InputModel::Output(line),
            );
            &&& r.0.phase == JobPhase::Running
            &&& r.0.lines.len() == lines.len() + 1
            &&& r.0.lines[lines.len() as int] == line
            &&& forall|k: int| 0 <= k < lines.len() ==> r.0.lines[k] == lines[k]
            &&& r.1 == seq![ActionModel::Emit(JobEventKind::Progress, Some(line), false)]
            &&& r.2 is None
        }),
        step_model(RunModel { phase: JobPhase::Running, lines }, InputModel::CancelRequested) == (
            RunModel { phase: JobPhase::Finished, lines },
            seq![
                ActionModel::Kill,
                ActionModel::Emit(JobEventKind::Cancelled, Some("Cancelled by user"@), true),
            ],
            Some(Ok::<(), Seq<char>>(())),
        ),
        ({
            let msg = if not_found {
                "deepFilter not found. Please click 'Initialize Environment' first."@
            } else {
                detail
            };
            step_model(
                RunModel { phase: JobPhase::Running, lines },
                InputModel::SpawnFailed(not_found, detail),
            ) == (
                RunModel { phase: JobPhase::Finished, lines },
                seq![ActionModel::Emit(JobEventKind::Error, Some(msg), false)],
                Some(Err::<(), Seq<char>>(msg)),
            )
        }),
{
}

/// A job with no chosen directory writes to `enhanced` in the directory of its
/// input; a chosen directory is used as it is; only a job with no chosen
/// directory and an input without a parent cannot be placed.
pub proof fn law_output_dir(input_path: Seq<char>, requested: Seq<char>)
    ensures
        requested.len() > 0 ==> output_dir_for(input_path, requested) == Ok::<Seq<char>, Seq<char>>(
            requested,
        ),
        requested.len() == 0 ==> match parent_path(input_path) {
            Some(dir) => output_dir_for(input_path, requested) == Ok::<Seq<char>, Seq<char>>(
                joined_path(dir, "enhanced"@),
            ),
            None => output_dir_for(input_path, requested) == Err::<Seq<char>, Seq<char>>(
                "Unable to resolve parent directory"@,
            ),
        },
{
}

/// The program is told the output directory after `-o`, gets the input file
/// last, and `--pf` appears among its arguments exactly when post-filtering
/// is asked for.
pub proof fn law_launch_args(input: Seq<char>, post_filter: bool, out_dir: Seq<char>)
    ensures
        ({
            let a = deep_filter_args(input, post_filter, out_dir);
            &&& a.len() >= 3
            &&& a[0] == "-o"@
            &&& a[1] == out_dir
            &&& a[a.len() - 1] == input
            &&& post_filter ==> a.len() == 4 && a[2] == "--pf"@
            &&& !post_filter ==> a.len() == 3
        }),
{
}

} // verus!
