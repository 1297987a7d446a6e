//! The pipeline orchestrator: the decisions that wire the stages of a
//! pipeline together, start them and reap them. The caller performs each
//! action on the operating system and reports what came of it.

use crate::builtins::Builtin;
use crate::command::{dispatch_of, handle_command, Dispatch};
use crate::host::Host;
use crate::parser::{tokenize_chars, tokens_of};
use crate::text::{chars_of, clone_strings, split, split_chars, sub_chars, trim, trimmed};
use crate::ShellStatus;
use vstd::prelude::*;
use vstd::string::StringExecFns;

verus! {

/// One command of a pipeline: the program and its arguments.
#[derive(Clone, Debug, PartialEq, Eq)]
pub struct Stage {
    pub program: String,
    pub args: Vec<String>,
}

/// A `Stage` as a plain value.
pub struct StageView {
    pub program: Seq<char>,
    pub args: Seq<Seq<char>>,
}

impl View for Stage {
    type V = StageView;

    open spec fn view(&self) -> StageView {
        StageView { program: self.program@, args: self.args.deep_view() }
    }
}

/// The views of a list of stages.
pub open spec fn stage_views(stages: Seq<Stage>) -> Seq<StageView> {
    Seq::new(stages.len(), |i: int| stages[i]@)
}

/// Where a pipeline run stands.
#[derive(Clone, Copy, Debug, PartialEq, Eq, Structural)]
pub enum Phase {
    /// Nothing has been done.
    Ready,
    /// A pipe has been asked for.
    Piping,
    /// The launch of the next stage has been asked for.
    Launching,
    /// A launch failed: the stages started so far are being killed. The
    /// number counts those already dealt with.
    Killing(usize),
    /// The pipe descriptors are being closed. The number counts the pipes
    /// already dealt with, the first flag says whether the read end of the
    /// next pipe is dealt with too, and the second whether the stages are
    /// then waited for.
    Closing(usize, bool, bool),
    /// The stages are being waited for. The number counts those already
    /// dealt with.
    Waiting(usize),
    /// The run is over.
    Finished,
}

/// What the caller reports to the orchestrator.
#[derive(Clone, Copy, Debug, PartialEq, Eq, Structural)]
pub enum Event {
    /// The run starts.
    Begin,
    /// A pipe was created, with these descriptors for its two ends.
    PipeCreated { read: i32, write: i32 },
    /// A pipe could not be created.
    PipeFailed,
    /// The stage was started as this process.
    Launched { pid: i32 },
    /// The stage could not be started.
    LaunchFailed,
    /// The last kill, close, wait or report was carried out.
    Completed,
}

/// What the orchestrator asks of the caller.
#[derive(Clone, Debug, PartialEq, Eq)]
pub enum Action {
    /// Create a pipe, and report `PipeCreated` or `PipeFailed`.
    CreatePipe,
    /// Start a stage, in a child process, with these descriptors as its
    /// standard input and output, and report `Launched` or `LaunchFailed`.
    /// Where a descriptor is `None` the stage inherits the caller's stream.
    /// The caller keeps its own copies of the descriptors.
    Launch {
        index: usize,
        program: String,
        args: Vec<String>,
        builtin: Option<Builtin>,
        stdin: Option<i32>,
        stdout: Option<i32>,
    },
    /// Write this text to standard error, and report `Completed`.
    Report(String),
    /// Kill this process, and report `Completed`.
    Kill(i32),
    /// Close this descriptor, and report `Completed`.
    Close(i32),
    /// Wait for this process to end, and report `Completed`.
    Wait(i32),
    /// The run is over, with this status.
    Finish(ShellStatus),
}

/// An `Action` as a plain value.
pub enum ActionView {
    CreatePipe,
    Launch {
        index: usize,
        program: Seq<char>,
        args: Seq<Seq<char>>,
        builtin: Option<Builtin>,
        stdin: Option<i32>,
        stdout: Option<i32>,
    },
    Report(Seq<char>),
    Kill(i32),
    Close(i32),
    Wait(i32),
    Finish(ShellStatus),
}

impl View for Action {
    type V = ActionView;

    open spec fn view(&self) -> ActionView {
        match *self {
            Action::CreatePipe => ActionView::CreatePipe,
            Action::Launch { index, program, args, builtin, stdin, stdout } => ActionView::Launch {
                index,
                program: program@,
                args: args.deep_view(),
                builtin,
                stdin,
                stdout,
            },
            Action::Report(text) => ActionView::Report(text@),
            Action::Kill(pid) => ActionView::Kill(pid),
            Action::Close(fd) => ActionView::Close(fd),
            Action::Wait(pid) => ActionView::Wait(pid),
            Action::Finish(status) => ActionView::Finish(status),
        }
    }
}

/// The state of a pipeline run as a plain value: the stages, the pipes
/// created so far, each with its read end first, the processes started so
/// far, and the phase.
pub struct OrchestratorView {
    pub stages: Seq<StageView>,
    pub pipes: Seq<(i32, i32)>,
    pub pids: Seq<i32>,
    pub phase: Phase,
}

impl OrchestratorView {
    /// The state is consistent: no more pipes than the stages need, no more
    /// processes than stages, and every count within its list.
    pub open spec fn wf(self) -> bool {
        &&& self.pipes.len() < self.stages.len() || self.pipes.len() == 0
        &&& self.pids.len() <= self.stages.len()
        &&& self.stages.len() <= usize::MAX
        &&& match self.phase {
            Phase::Ready => self.pipes.len() == 0 && self.pids.len() == 0,
            Phase::Piping => self.pids.len() == 0 && self.pipes.len() + 1 < self.stages.len(),
            Phase::Launching => self.pids.len() < self.stages.len() && self.pipes.len() + 1
                == self.stages.len(),
            Phase::Killing(k) => k <= self.pids.len(),
            Phase::Closing(i, half, _) => i < self.pipes.len() || (i == self.pipes.len() && !half),
            Phase::Waiting(w) => w <= self.pids.len(),
            Phase::Finished => true,
        }
    }

    /// The `k`-th pipe descriptor in the order of closing: the read end of
    /// each pipe, then its write end, pipe by pipe.
    pub open spec fn descriptor(self, k: int) -> i32 {
        if k % 2 == 0 {
            self.pipes[k / 2].0
        } else {
            self.pipes[k / 2].1
        }
    }

    /// The standard input of stage `i`: the read end of the pipe before it.
    /// The first stage inherits the caller's.
    pub open spec fn stdin_of(self, i: int) -> Option<i32> {
        if 0 < i <= self.pipes.len() {
            Some(self.pipes[i - 1].0)
        } else {
            None
        }
    }

    /// The standard output of stage `i`: the write end of the pipe after it.
    /// The last stage inherits the caller's.
    pub open spec fn stdout_of(self, i: int) -> Option<i32> {
        if 0 <= i < self.pipes.len() && i + 1 < self.stages.len() {
            Some(self.pipes[i].1)
        } else {
            None
        }
    }

    /// The request to start stage `i`.
    pub open spec fn launch(self, i: int) -> ActionView {
        ActionView::Launch {
            index: i as usize,
            program: self.stages[i].program,
            args: self.stages[i].args,
            builtin: Builtin::named(self.stages[i].program),
            stdin: self.stdin_of(i),
            stdout: self.stdout_of(i),
        }
    }

    /// The phase in which `closed` descriptors have been dealt with.
    pub open spec fn closing(closed: int, waits: bool) -> Phase {
        Phase::Closing((closed / 2) as usize, closed % 2 == 1, waits)
    }

    /// The number of descriptors dealt with in a closing phase.
    pub open spec fn closed_in(pipe: usize, half: bool) -> int {
        2 * pipe + if half {
            1int
        } else {
            0int
        }
    }

    /// The same state in another phase.
    pub open spec fn at(self, phase: Phase) -> OrchestratorView {
        OrchestratorView { phase, ..self }
    }

    /// The next step of winding a run down: kill what is left to kill, then
    /// close what is left to close, then wait for what is left to wait for,
    /// then finish. A run that kills does not wait.
    pub open spec fn wind_down(self) -> (OrchestratorView, ActionView) {
        let killed = match self.phase {
            Phase::Killing(k) => k as int,
            _ => self.pids.len() as int,
        };
        let closed = match self.phase {
            Phase::Closing(i, half, _) => Self::closed_in(i, half),
            Phase::Killing(_) => 0,
            _ => 2 * self.pipes.len() as int,
        };
        let waits = match self.phase {
            Phase::Closing(_, _, wait) => wait,
            Phase::Waiting(_) => true,
            _ => false,
        };
        let waited = match self.phase {
            Phase::Waiting(w) => w as int,
            _ => 0,
        };
        if killed < self.pids.len() {
            (self.at(Phase::Killing((killed + 1) as usize)), ActionView::Kill(self.pids[killed]))
        } else if closed < 2 * self.pipes.len() {
            (
                self.at(Self::closing(closed + 1, waits)),
                ActionView::Close(self.descriptor(closed)),
            )
        } else if waits && waited < self.pids.len() {
            (self.at(Phase::Waiting((waited + 1) as usize)), ActionView::Wait(self.pids[waited]))
        } else {
            (self.at(Phase::Finished), ActionView::Finish(ShellStatus::Continue))
        }
    }

    /// What follows once a pipe is there, or none is needed: the next pipe
    /// while one is missing, then the first launch.
    pub open spec fn after_pipe(self) -> (OrchestratorView, ActionView) {
        if self.pipes.len() + 1 < self.stages.len() {
            (self.at(Phase::Piping), ActionView::CreatePipe)
        } else {
            self.after_launch()
        }
    }

    /// What follows once a stage is started: the next launch while a stage
    /// is left, then closing every pipe descriptor and waiting for every
    /// stage.
    pub open spec fn after_launch(self) -> (OrchestratorView, ActionView) {
        if self.pids.len() < self.stages.len() {
            (self.at(Phase::Launching), self.launch(self.pids.len() as int))
        } else {
            self.at(Phase::Closing(0, false, true)).wind_down()
        }
    }

    /// The state after an event, and what the orchestrator then asks for.
    ///
    /// One pipe is created for each pair of neighbouring stages before any
    /// stage starts; where a pipe cannot be created, the pipes made so far
    /// are closed and no stage starts. The stages start in order; where one
    /// cannot be started, the ones before it are killed and every pipe
    /// descriptor is closed, without waiting. Once all have started, every
    /// pipe descriptor is closed, and then every stage is waited for, in the
    /// order of launching. While pipes are created and stages are started,
    /// an event that the phase does not provide for ends the run in the same
    /// way as a failed launch, without a report; while a run is wound down,
    /// every event counts as `Completed`. The run always finishes with
    /// `Continue`.
    pub open spec fn next(self, event: Event) -> (OrchestratorView, ActionView) {
        match self.phase {
            Phase::Ready => match event {
                Event::Begin => self.after_pipe(),
                _ => self.at(Phase::Killing(0)).wind_down(),
            },
            Phase::Piping => match event {
                Event::PipeCreated { read, write } => OrchestratorView {
                    pipes: self.pipes.push((read, write)),
                    ..self
                }.after_pipe(),
                Event::PipeFailed => (
                    self.at(Phase::Closing(0, false, false)),
                    ActionView::Report("Failed to create pipe\n"@),
                ),
                _ => self.at(Phase::Killing(0)).wind_down(),
            },
            Phase::Launching => match event {
                Event::Launched { pid } => OrchestratorView {
                    pids: self.pids.push(pid),
                    ..self
                }.after_launch(),
                Event::LaunchFailed => (
                    self.at(Phase::Killing(0)),
                    ActionView::Report(
                        "Failed to spawn command: "@ + self.stages[self.pids.len() as int].program
                            + "\n"@,
                    ),
                ),
                _ => self.at(Phase::Killing(0)).wind_down(),
            },
            Phase::Killing(_) | Phase::Closing(_, _, _) | Phase::Waiting(_) => self.wind_down(),
            Phase::Finished => (self, ActionView::Finish(ShellStatus::Continue)),
        }
    }

    /// The pipe descriptors that the caller holds open: those of the pipes
    /// created, less those that it was asked to close.
    pub open spec fn open_descriptors(self) -> Seq<i32> {
        let all = Seq::new(2 * self.pipes.len(), |k: int| self.descriptor(k));
        match self.phase {
            Phase::Closing(i, half, _) => all.skip(Self::closed_in(i, half)),
            Phase::Waiting(_) | Phase::Finished => Seq::empty(),
            _ => all,
        }
    }
}

/// Each step of a run keeps the state consistent and accounts for every
/// pipe descriptor: a pipe that is created adds its two descriptors to those
/// held open, a request to close takes the first of them away, and nothing
/// else changes them. A run finishes only when none is left open, and always
/// with `Continue`.
pub proof fn lemma_step_accounts_for_descriptors(pre: OrchestratorView, event: Event)
    requires
        pre.wf(),
    ensures
        pre.next(event).0.wf(),
        pre.next(event).0.stages == pre.stages,
        match pre.next(event).1 {
            ActionView::Close(fd) => {
                &&& pre.open_descriptors().len() > 0
                &&& fd == pre.open_descriptors()[0]
                &&& pre.next(event).0.open_descriptors() == pre.open_descriptors().drop_first()
            },
            ActionView::Finish(status) => {
                &&& status == ShellStatus::Continue
                &&& pre.open_descriptors().len() == 0
                &&& pre.next(event).0.open_descriptors().len() == 0
            },
            _ => if pre.phase == Phase::Piping && event is PipeCreated {
                pre.next(event).0.open_descriptors() == pre.open_descriptors().push(
                    event->read,
                ).push(event->write)
            } else {
                pre.next(event).0.open_descriptors() == pre.open_descriptors()
            },
        },
{
}

impl OrchestratorView {
    /// The state after a sequence of events.
    pub open spec fn run(self, events: Seq<Event>) -> OrchestratorView
        decreases events.len(),
    {
        if events.len() == 0 {
            self
        } else {
            self.run(events.drop_last()).next(events.last()).0
        }
    }

    /// The descriptors of the pipes that a sequence of events reports as
    /// created while the run asks for pipes, in order.
    pub open spec fn created(self, events: Seq<Event>) -> Seq<i32>
        decreases events.len(),
    {
        if events.len() == 0 {
            Seq::empty()
        } else {
            let before = self.created(events.drop_last());
            if self.run(events.drop_last()).phase == Phase::Piping && events.last() is PipeCreated {
                before.push(events.last()->read).push(events.last()->write)
            } else {
                before
            }
        }
    }

    /// The descriptors that the run asks to close during a sequence of
    /// events, in order.
    pub open spec fn closed(self, events: Seq<Event>) -> Seq<i32>
        decreases events.len(),
    {
        if events.len() == 0 {
            Seq::empty()
        } else {
            let before = self.closed(events.drop_last());
            match self.run(events.drop_last()).next(events.last()).1 {
                ActionView::Close(fd) => before.push(fd),
                _ => before,
            }
        }
    }
}

/// Over any sequence of events, the descriptors that were open at the start
/// and those created since are the ones that the run asked to close, in the
/// same order, followed by the ones still open.
pub proof fn lemma_run_accounts_for_descriptors(start: OrchestratorView, events: Seq<Event>)
    requires
        start.wf(),
    ensures
        start.run(events).wf(),
        start.open_descriptors() + start.created(events) == start.closed(events) + start.run(
            events,
        ).open_descriptors(),
    decreases events.len(),
{
    if events.len() > 0 {
        let init = events.drop_last();
        let before = start.run(init);
        lemma_run_accounts_for_descriptors(start, init);
        lemma_step_accounts_for_descriptors(before, events.last());
        if before.phase == Phase::Piping && events.last() is PipeCreated {
            let held = start.open_descriptors() + start.created(init);
            let r = events.last()->read;
            let w = events.last()->write;
            assert(held.push(r).push(w) =~= start.closed(init) + before.open_descriptors().push(
                r,
            ).push(w));
        }
    }
}

/// A run that has finished has asked to close every pipe descriptor that
/// was created for it, each once and in the order of creation: none is left
/// open. This holds whatever came of creating the pipes and of starting the
/// stages.
pub proof fn lemma_finished_run_holds_no_descriptor(
    stages: Seq<StageView>,
    events: Seq<Event>,
)
    requires
        stages.len() <= usize::MAX,
    ensures
        ({
            let start = OrchestratorView {
                stages,
                pipes: Seq::empty(),
                pids: Seq::empty(),
                phase: Phase::Ready,
            };
            start.run(events).phase == Phase::Finished ==> start.closed(events) == start.created(
                events,
            ) && start.run(events).open_descriptors().len() == 0
        }),
{
    let start = OrchestratorView {
        stages,
        pipes: Seq::empty(),
        pids: Seq::empty(),
        phase: Phase::Ready,
    };
    lemma_run_accounts_for_descriptors(start, events);
}

impl OrchestratorView {
    /// Whether the run is being wound down or is over.
    pub open spec fn winding_down(self) -> bool {
        self.phase is Killing || self.phase is Closing || self.phase is Waiting || self.phase
            is Finished
    }
}

/// A run that is being wound down stays so: it creates no pipe and starts
/// no stage any more. In particular no stage starts once a pipe could not be
/// created, and none after a stage that could not be started.
pub proof fn lemma_winding_down_goes_on(pre: OrchestratorView, event: Event)
    requires
        pre.wf(),
        pre.winding_down() || (pre.phase is Piping && event is PipeFailed) || (pre.phase
            is Launching && event is LaunchFailed),
    ensures
        pre.next(event).0.winding_down(),
        !(pre.next(event).1 is CreatePipe),
        !(pre.next(event).1 is Launch),
        pre.next(event).0.pipes == pre.pipes,
        pre.next(event).0.pids == pre.pids,
{
}

/// A stage is waited for only when no pipe descriptor is open any more, so
/// that the end of input reaches every stage; and a run that killed a stage
/// waits for none.
pub proof fn lemma_waits_follow_closing(pre: OrchestratorView, event: Event)
    requires
        pre.wf(),
    ensures
        pre.next(event).1 is Wait ==> pre.next(event).0.open_descriptors().len() == 0,
        pre.next(event).1 is Wait ==> !(pre.phase is Killing) && !(pre.phase matches Phase::Closing(
            _,
            _,
            false,
        )),
{
}

/// Once every pipe is there, each stage writes to the pipe that the next
/// stage reads from, the first stage reads what the caller reads, and the
/// last stage writes where the caller writes.
pub proof fn lemma_stages_are_chained(run: OrchestratorView, i: int)
    requires
        run.pipes.len() + 1 == run.stages.len(),
        0 <= i < run.stages.len(),
    ensures
        run.stdin_of(0) is None,
        run.stdout_of(run.stages.len() - 1) is None,
        i + 1 < run.stages.len() ==> run.stdout_of(i) == Some(run.pipes[i].1) && run.stdin_of(
            i + 1,
        ) == Some(run.pipes[i].0),
{
}

/// A pipeline run in progress.
pub struct Orchestrator {
    stages: Vec<Stage>,
    pipes: Vec<(i32, i32)>,
    pids: Vec<i32>,
    phase: Phase,
}

impl View for Orchestrator {
    type V = OrchestratorView;

    closed spec fn view(&self) -> OrchestratorView {
        OrchestratorView {
            stages: stage_views(self.stages@),
            pipes: self.pipes@,
            pids: self.pids@,
            phase: self.phase,
        }
    }
}

impl Orchestrator {
    /// A run of the given stages on which nothing has been done yet.
    pub fn new(stages: Vec<Stage>) -> (run: Orchestrator)
        ensures
            run@ == (OrchestratorView {
                stages: stage_views(stages@),
                pipes: Seq::empty(),
                pids: Seq::empty(),
                phase: Phase::Ready,
            }),
            run@.wf(),
    {
        assert(stage_views(stages@).len() == stages.len());
        Orchestrator { stages, pipes: Vec::new(), pids: Vec::new(), phase: Phase::Ready }
    }

    /// Tells whether the run is over.
    pub fn is_finished(&self) -> (r: bool)
        ensures
            r == (self@.phase == Phase::Finished),
    {
        match self.phase {
            Phase::Finished => true,
            _ => false,
        }
    }

    /// The request to start stage `i`.
    fn launch(&self, i: usize) -> (action: Action)
        requires
            i < self@.stages.len(),
        ensures
            action@ == self@.launch(i as int),
    {
        let stage = &self.stages[i];
        let builtin = match Builtin::from_str(stage.program.as_str()) {
            Ok(b) => Some(b),
            Err(_) => None,
        };
        let stdin = if 0 < i && i <= self.pipes.len() {
            Some(self.pipes[i - 1].0)
        } else {
            None
        };
        let stdout = if i < self.pipes.len() && i + 1 < self.stages.len() {
            Some(self.pipes[i].1)
        } else {
            None
        };
        Action::Launch {
            index: i,
            program: stage.program.clone(),
            args: clone_strings(stage.args.as_slice()),
            builtin,
            stdin,
            stdout,
        }
    }

    /// The next step of winding the run down.
    fn wind_down(&mut self) -> (action: Action)
        requires
            old(self)@.wf(),
            old(self)@.phase is Killing || old(self)@.phase is Closing || old(self)@.phase
                is Waiting,
        ensures
            (final(self)@, action@) == old(self)@.wind_down(),
            final(self)@.wf(),
    {
        if let Phase::Killing(k) = self.phase {
            if k < self.pids.len() {
                self.phase = Phase::Killing(k + 1);
                return Action::Kill(self.pids[k]);
            }
            self.phase = Phase::Closing(0, false, false);
        }
        if let Phase::Closing(i, half, waits) = self.phase {
            if i < self.pipes.len() {
                if half {
                    self.phase = Phase::Closing(i + 1, false, waits);
                    return Action::Close(self.pipes[i].1);
                } else {
                    self.phase = Phase::Closing(i, true, waits);
                    return Action::Close(self.pipes[i].0);
                }
            }
            if waits {
                self.phase = Phase::Waiting(0);
            } else {
                self.phase = Phase::Finished;
            }
        }
        if let Phase::Waiting(w) = self.phase {
            if w < self.pids.len() {
                self.phase = Phase::Waiting(w + 1);
                return Action::Wait(self.pids[w]);
            }
            self.phase = Phase::Finished;
        }
        Action::Finish(ShellStatus::Continue)
    }

    /// What follows once a stage is started.
    fn after_launch(&mut self) -> (action: Action)
        requires
            old(self)@.pids.len() <= old(self)@.stages.len() <= usize::MAX,
            old(self)@.pipes.len() + 1 == old(self)@.stages.len() || (old(self)@.pipes.len() == 0
                && old(self)@.stages.len() == 0),
        ensures
            (final(self)@, action@) == old(self)@.after_launch(),
            final(self)@.wf(),
    {
        if self.pids.len() < self.stages.len() {
            self.phase = Phase::Launching;
            self.launch(self.pids.len())
        } else {
            self.phase = Phase::Closing(0, false, true);
            self.wind_down()
        }
    }

    /// What follows once a pipe is there, or none is needed.
    fn after_pipe(&mut self) -> (action: Action)
        requires
            old(self)@.pids.len() == 0,
            old(self)@.stages.len() <= usize::MAX,
            old(self)@.pipes.len() < old(self)@.stages.len() || old(self)@.pipes.len() == 0,
            old(self)@.phase is Ready || old(self)@.phase is Piping,
        ensures
            (final(self)@, action@) == old(self)@.after_pipe(),
            final(self)@.wf(),
    {
        if self.pipes.len() + 1 < self.stages.len() {
            self.phase = Phase::Piping;
            Action::CreatePipe
        } else {
            self.after_launch()
        }
    }

    /// Takes the report of what came of the last action, and returns the
    /// next action. The first call reports `Event::Begin`.
    pub fn step(&mut self, event: Event) -> (action: Action)
        requires
            old(self)@.wf(),
        ensures
            (final(self)@, action@) == old(self)@.next(event),
            final(self)@.wf(),
    {
        match self.phase {
            Phase::Ready => match event {
                Event::Begin => self.after_pipe(),
                _ => {
                    self.phase = Phase::Killing(0);
                    self.wind_down()
                },
            },
            Phase::Piping => match event {
                Event::PipeCreated { read, write } => {
                    self.pipes.push((read, write));
                    self.after_pipe()
                },
                Event::PipeFailed => {
                    self.phase = Phase::Closing(0, false, false);
                    Action::Report("Failed to create pipe\n".to_string())
                },
                _ => {
                    self.phase = Phase::Killing(0);
                    self.wind_down()
                },
            },
            Phase::Launching => match event {
                Event::Launched { pid } => {
                    self.pids.push(pid);
                    self.after_launch()
                },
                Event::LaunchFailed => {
                    let mut text = "Failed to spawn command: ".to_string();
                    text.append(self.stages[self.pids.len()].program.as_str());
                    text.append("\n");
                    self.phase = Phase::Killing(0);
                    Action::Report(text)
                },
                _ => {
                    self.phase = Phase::Killing(0);
                    self.wind_down()
                },
            },
            Phase::Killing(_) | Phase::Closing(_, _, _) | Phase::Waiting(_) => self.wind_down(),
            Phase::Finished => Action::Finish(ShellStatus::Continue),
        }
    }
}

/// The exit code of a child process that ran a builtin as a stage: the code
/// that the builtin asked to exit with, and 0 where it asked to go on.
pub fn stage_exit_code(status: ShellStatus) -> (code: i32)
    ensures
        code == match status {
            ShellStatus::Exit(c) => c,
            ShellStatus::Continue => 0,
        },
{
    match status {
        ShellStatus::Exit(c) => c,
        ShellStatus::Continue => 0,
    }
}

/// What a pipeline line asks for.
#[derive(Clone, Debug, PartialEq, Eq)]
pub enum PipelinePlan {
    /// Nothing: one of its segments holds no command.
    Nothing,
    /// One command, which takes the single-command path.
    Single(Stage),
    /// Two or more stages, to be connected by pipes.
    Stages(Vec<Stage>),
}

/// A `PipelinePlan` as a plain value.
pub enum PipelinePlanView {
    Nothing,
    Single(StageView),
    Stages(Seq<StageView>),
}

impl View for PipelinePlan {
    type V = PipelinePlanView;

    open spec fn view(&self) -> PipelinePlanView {
        match *self {
            PipelinePlan::Nothing => PipelinePlanView::Nothing,
            PipelinePlan::Single(stage) => PipelinePlanView::Single(stage@),
            PipelinePlan::Stages(stages) => PipelinePlanView::Stages(stage_views(stages@)),
        }
    }
}

/// The command in one segment of a pipeline line: the tokens of the segment
/// without the whitespace around it, the first as the program and the rest
/// as its arguments. A segment without a token holds no command.
pub open spec fn stage_of(segment: Seq<char>) -> Option<StageView> {
    let tokens = tokens_of(trimmed(segment));
    if tokens.len() == 0 {
        None
    } else {
        Some(StageView { program: tokens[0], args: tokens.drop_first() })
    }
}

/// What a line asks for. The line is cut at every `|`; where a segment
/// holds no command, nothing is done.
pub open spec fn plan_of(input: Seq<char>) -> PipelinePlanView {
    let segments = split(input, '|');
    if exists|i: int| 0 <= i < segments.len() && stage_of(#[trigger] segments[i]) is None {
        PipelinePlanView::Nothing
    } else if segments.len() == 1 {
        PipelinePlanView::Single(stage_of(segments[0])->0)
    } else {
        PipelinePlanView::Stages(Seq::new(segments.len(), |i: int| stage_of(segments[i])->0))
    }
}

/// Reads the command in one segment of a pipeline line.
fn parse_stage(segment: &Vec<char>) -> (r: Option<Stage>)
    ensures
        match stage_of(segment@) {
            Some(stage) => r matches Some(s) && s@ == stage,
            None => r is None,
        },
{
    let (from, to) = trim(segment, 0, segment.len());
    assert(segment@.subrange(0, segment.len() as int) =~= segment@);
    let mut tokens = tokenize_chars(&sub_chars(segment, from, to));
    if tokens.len() == 0 {
        return None;
    }
    let ghost all = tokens.deep_view();
    let program = tokens.remove(0);
    assert(tokens.deep_view() =~= all.drop_first());
    assert(program@ == all[0]);
    Some(Stage { program, args: tokens })
}

/// Reads a pipeline line: cuts it at every `|`, and reads one command from
/// each segment. A line with a segment that holds no command asks for
/// nothing; a line of one command takes the single-command path; any other
/// line is a pipeline of its commands, in order.
pub fn execute_pipeline(input: &str) -> (plan: PipelinePlan)
    ensures
        plan@ == plan_of(input@),
{
    let segments = split_chars(&chars_of(input), '|');
    let ghost parts = split(input@, '|');
    let mut stages: Vec<Stage> = Vec::new();
    let mut i: usize = 0;
    while i < segments.len()
        invariant
            i <= segments.len(),
            parts == split(input@, '|'),
            parts.len() == segments.len(),
            forall|k: int| 0 <= k < parts.len() ==> parts[k] == #[trigger] segments@[k]@,
            stages.len() == i,
            forall|k: int|
                0 <= k < i ==> stage_of(#[trigger] parts[k]) is Some && stage_of(parts[k])->0
                    == stages@[k]@,
        decreases segments.len() - i,
    {
        match parse_stage(&segments[i]) {
            Some(stage) => {
                stages.push(stage);
            },
            None => {
                return PipelinePlan::Nothing;
            },
        }
        i = i + 1;
    }
    if stages.len() == 1 {
        let stage = stages.pop().unwrap();
        PipelinePlan::Single(stage)
    } else {
        assert(stage_views(stages@) =~= Seq::new(parts.len(), |i: int| stage_of(parts[i])->0));
        PipelinePlan::Stages(stages)
    }
}

/// Handles the one command of a line that holds no other, as any single
/// command is handled: with the history log of the lines accepted so far.
pub fn run_single(stage: Stage, history: &[String], host: &Host) -> (d: Dispatch)
    ensures
        d@ == dispatch_of(stage@.program, stage@.args, history.deep_view(), *host),
{
    handle_command(stage.program.as_str(), stage.args, history, host)
}

} // verus!
