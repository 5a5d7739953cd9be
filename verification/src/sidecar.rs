//! Bringing up the backend: launch the JVM, then poll its health until it is ready, it
//! exits, or the rounds allowed run out.
use vstd::prelude::*;
use crate::config::{build_env, console_log_of, env_view, log_file_of, LaunchConfig};
use crate::error::SidecarError;
use crate::paths::{lemma_inside_ends_with, verbatim};
use crate::resources::Resources;
use crate::text::{blank, is_blank, last_lines_chars, string_from_chars, tail_text};
use crate::time::{nanos_per_sec, saturating_times, Duration};

verus! {

/// Waits between polls; implementations may sleep for real or merely count.
pub trait Sleeper: Send + Sync {
    fn sleep(&self, dur: Duration);
}

/// Tells whether the backend answers on its health endpoint.
pub trait HealthProbe: Send + Sync {
    fn is_ready(&self, port: u16) -> bool;
}

/// A launched backend process.
pub trait ManagedProcess: Send {
    fn is_running(&mut self) -> bool;

    /// The exit code, once the process has exited with one.
    fn exit_code(&mut self) -> Option<i32>;

    fn terminate(&mut self) -> Result<(), SidecarError>;
}

/// Launches the JVM: `java_bin -jar jar` with `env`, its standard output and error going
/// to `stdio_log` so that failures before the application log exists are kept.
pub trait ProcessSpawner: Send + Sync {
    fn spawn(&self, java_bin: &str, jar: &str, env: &[(String, String)], stdio_log: &str) -> Result<
        Box<dyn ManagedProcess>,
        SidecarError,
    >;
}

/// What one start needs: the resources, the launch configuration, how many polling rounds
/// to allow (at least one is made) and the pause after each unsuccessful round.
pub struct StartParams<'a> {
    pub resources: &'a Resources,
    pub config: &'a LaunchConfig,
    pub max_attempts: u32,
    pub poll_interval: Duration,
}

/// A backend that answered its health check, and the process that serves it.
pub struct RunningSidecar {
    pub port: u16,
    pub process: Box<dyn ManagedProcess>,
}

/// Starts the backend with the given ways to launch, probe and wait.
pub struct SidecarManager<'a> {
    pub spawner: &'a dyn ProcessSpawner,
    pub probe: &'a dyn HealthProbe,
    pub sleeper: &'a dyn Sleeper,
}

/// How many rounds the application allows the backend to become ready.
pub const STARTUP_MAX_ATTEMPTS: u32 = 120;

/// The pause between two polls of the application, in milliseconds.
pub const STARTUP_POLL_MILLIS: u64 = 500;

/// How many lines of log are shown when the JVM exits early.
pub const DIAGNOSTIC_LINES: usize = 40;

/// How many bytes from the end of a log file are read for its last lines.
pub const LOG_WINDOW_BYTES: u64 = 65_536;

/// The number of rounds made: the limit asked for, but at least one.
pub open spec fn effective_attempts(max_attempts: u32) -> nat {
    if max_attempts == 0 {
        1
    } else {
        max_attempts as nat
    }
}

/// What the polling of a launched backend is set to: the port whose health endpoint is
/// asked, the pause after an unsuccessful round, the number of rounds (at least one), and the
/// time reported when they all pass.
#[derive(Debug, Clone, Copy, PartialEq, Eq)]
pub struct PollPlan {
    pub port: u16,
    pub interval: Duration,
    pub attempts: u32,
    pub timeout: Duration,
}

/// Where the polling stands; `round` counts the rounds completed before the current one.
#[derive(Debug, Clone, Copy, PartialEq, Eq)]
pub enum PollPhase {
    /// Asking the health endpoint.
    Probing,
    /// The health endpoint did not answer; asking whether the process still runs.
    AskingLiveness,
    /// Pausing before the next round.
    Pausing,
    /// Every round has passed; terminating the process.
    Terminating,
    /// The outcome has been reported.
    Finished,
}

#[derive(Debug, Clone, Copy, PartialEq, Eq)]
pub struct PollState {
    pub phase: PollPhase,
    pub round: u32,
}

/// The answer to the last action.
#[derive(Debug, Clone, Copy, PartialEq, Eq)]
pub enum PollEvent {
    /// Whether the health endpoint answered.
    Answered { ready: bool },
    /// Whether the process still runs.
    Liveness { running: bool },
    /// The pause is over.
    Paused,
    /// The process has been terminated.
    Terminated,
}

/// What to do next.
#[derive(Debug, Clone, Copy, PartialEq, Eq)]
pub enum PollAction {
    /// Ask the health endpoint on this port.
    Probe(u16),
    /// Ask whether the process still runs.
    AskLiveness,
    /// Pause this long.
    Pause(Duration),
    /// Terminate the process.
    Terminate,
    /// The backend is ready on this port.
    ReportReady(u16),
    /// The process exited before the backend was ready: report its exit code and log.
    ReportExited,
    /// The backend was not ready in time: report this span.
    ReportTimeout(Duration),
    /// The event does not answer the last action; nothing happens.
    Ignore,
}

/// The time reported by a timed-out start: the pause times the number of rounds, or the
/// longest span when that overflows.
pub open spec fn timeout_span(poll_interval: Duration, max_attempts: u32) -> nat {
    saturating_times(poll_interval@, effective_attempts(max_attempts))
}

/// `plan` is the polling for `port`, `interval` and the round limit `max_attempts`.
pub open spec fn plan_for(plan: PollPlan, port: u16, interval: Duration, max_attempts: u32) -> bool {
    &&& plan.port == port
    &&& plan.interval == interval
    &&& plan.attempts == effective_attempts(max_attempts)
    &&& plan.timeout@ == timeout_span(interval, max_attempts)
}

/// Sets up the polling of a backend on `port` that pauses `interval` after each unsuccessful
/// round and makes at most `max_attempts` rounds, but at least one.
pub fn poll_plan(port: u16, interval: Duration, max_attempts: u32) -> (plan: PollPlan)
    ensures
        plan_for(plan, port, interval, max_attempts),
{
    let attempts: u32 = if max_attempts == 0 {
        1
    } else {
        max_attempts
    };
    let timeout = match interval.checked_mul(attempts) {
        Some(w) => w,
        None => Duration::max_value(),
    };
    PollPlan { port, interval, attempts, timeout }
}

pub open spec fn poll_initial() -> PollState {
    PollState { phase: PollPhase::Probing, round: 0 }
}

/// The polling starts by asking the health endpoint.
pub fn poll_begin(plan: &PollPlan) -> (r: (PollState, PollAction))
    ensures
        r == (poll_initial(), PollAction::Probe(plan.port)),
{
    (PollState { phase: PollPhase::Probing, round: 0 }, PollAction::Probe(plan.port))
}

/// One step of the polling. The health endpoint is asked first in each round: when it
/// answers, the backend is ready, whether or not the process still runs. Otherwise the
/// process is asked: when it is gone, it exited early; else the polling pauses and goes on
/// with the next round, or, after the last round, terminates the process and reports the
/// timeout.
pub open spec fn poll_next(plan: PollPlan, s: PollState, e: PollEvent) -> (PollState, PollAction) {
    let finished = PollState { phase: PollPhase::Finished, round: s.round };
    match (s.phase, e) {
        (PollPhase::Probing, PollEvent::Answered { ready }) => if ready {
            (finished, PollAction::ReportReady(plan.port))
        } else {
            (PollState { phase: PollPhase::AskingLiveness, round: s.round }, PollAction::AskLiveness)
        },
        (PollPhase::AskingLiveness, PollEvent::Liveness { running }) => if !running {
            (finished, PollAction::ReportExited)
        } else {
            (PollState { phase: PollPhase::Pausing, round: s.round }, PollAction::Pause(plan.interval))
        },
        (PollPhase::Pausing, PollEvent::Paused) => if s.round + 1 < plan.attempts {
            (
                PollState { phase: PollPhase::Probing, round: (s.round + 1) as u32 },
                PollAction::Probe(plan.port),
            )
        } else {
            (
                PollState { phase: PollPhase::Terminating, round: plan.attempts },
                PollAction::Terminate,
            )
        },
        (PollPhase::Terminating, PollEvent::Terminated) => (
            finished,
            PollAction::ReportTimeout(plan.timeout),
        ),
        _ => (s, PollAction::Ignore),
    }
}

/// Decides the next step of the polling (see `poll_next`).
pub fn poll_step(plan: &PollPlan, s: PollState, e: PollEvent) -> (r: (PollState, PollAction))
    ensures
        r == poll_next(*plan, s, e),
{
    match (s.phase, e) {
        (PollPhase::Probing, PollEvent::Answered { ready }) => if ready {
            (PollState { phase: PollPhase::Finished, round: s.round }, PollAction::ReportReady(plan.port))
        } else {
            (PollState { phase: PollPhase::AskingLiveness, round: s.round }, PollAction::AskLiveness)
        },
        (PollPhase::AskingLiveness, PollEvent::Liveness { running }) => if !running {
            (PollState { phase: PollPhase::Finished, round: s.round }, PollAction::ReportExited)
        } else {
            (PollState { phase: PollPhase::Pausing, round: s.round }, PollAction::Pause(plan.interval))
        },
        (PollPhase::Pausing, PollEvent::Paused) => if (s.round as u64) + 1 < plan.attempts as u64 {
            (PollState { phase: PollPhase::Probing, round: s.round + 1 }, PollAction::Probe(plan.port))
        } else {
            (PollState { phase: PollPhase::Terminating, round: plan.attempts }, PollAction::Terminate)
        },
        (PollPhase::Terminating, PollEvent::Terminated) => (
            PollState { phase: PollPhase::Finished, round: s.round },
            PollAction::ReportTimeout(plan.timeout),
        ),
        _ => (s, PollAction::Ignore),
    }
}

/// The state after a sequence of events and the actions decided on the way, beginning with
/// the first probe; events that answer nothing are passed over.
pub open spec fn poll_run(plan: PollPlan, events: Seq<PollEvent>) -> (PollState, Seq<PollAction>)
    decreases events.len(),
{
    if events.len() == 0 {
        (poll_initial(), seq![PollAction::Probe(plan.port)])
    } else {
        let (before, acts) = poll_run(plan, events.drop_last());
        let (after, act) = poll_next(plan, before, events.last());
        if act == PollAction::Ignore {
            (before, acts)
        } else {
            (after, acts.push(act))
        }
    }
}

/// The kinds of actions that are counted: 0 probes, 1 liveness questions, 2 pauses,
/// 3 terminations, 4 anything else.
pub open spec fn action_kind(a: PollAction) -> nat {
    match a {
        PollAction::Probe(_) => 0,
        PollAction::AskLiveness => 1,
        PollAction::Pause(_) => 2,
        PollAction::Terminate => 3,
        _ => 4,
    }
}

/// How many of the actions are of the kind `kind`.
pub open spec fn count_actions(acts: Seq<PollAction>, kind: nat) -> nat
    decreases acts.len(),
{
    if acts.len() == 0 {
        0
    } else {
        count_actions(acts.drop_last(), kind) + if action_kind(acts.last()) == kind {
            1nat
        } else {
            0nat
        }
    }
}

pub open spec fn probes(acts: Seq<PollAction>) -> nat {
    count_actions(acts, 0)
}

pub open spec fn liveness_questions(acts: Seq<PollAction>) -> nat {
    count_actions(acts, 1)
}

pub open spec fn pauses(acts: Seq<PollAction>) -> nat {
    count_actions(acts, 2)
}

pub open spec fn terminations(acts: Seq<PollAction>) -> nat {
    count_actions(acts, 3)
}

/// What holds of the polling after any sequence of events: how many probes, liveness
/// questions, pauses and terminations were decided, and what the last action was.
pub open spec fn poll_inv(plan: PollPlan, s: PollState, acts: Seq<PollAction>) -> bool {
    let a = plan.attempts as nat;
    let r = s.round as nat;
    &&& acts.len() > 0
    &&& forall|i: int| 0 <= i < acts.len() && #[trigger] acts[i] is Probe ==> acts[i] == PollAction::Probe(plan.port)
    &&& forall|i: int| 0 <= i < acts.len() && #[trigger] acts[i] is Pause ==> acts[i] == PollAction::Pause(plan.interval)
    &&& match s.phase {
        PollPhase::Probing => r < a && acts.last() == PollAction::Probe(plan.port) && probes(acts) == r + 1
            && liveness_questions(acts) == r && pauses(acts) == r && terminations(acts) == 0,
        PollPhase::AskingLiveness => r < a && acts.last() == PollAction::AskLiveness && probes(acts) == r
            + 1 && liveness_questions(acts) == r + 1 && pauses(acts) == r && terminations(acts) == 0,
        PollPhase::Pausing => r < a && acts.last() == PollAction::Pause(plan.interval) && probes(acts)
            == r + 1 && liveness_questions(acts) == r + 1 && pauses(acts) == r + 1 && terminations(acts)
            == 0,
        PollPhase::Terminating => r == a && acts.last() == PollAction::Terminate && probes(acts) == a
            && liveness_questions(acts) == a && pauses(acts) == a && terminations(acts) == 1,
        PollPhase::Finished => {
            ||| (acts.last() == PollAction::ReportReady(plan.port) && r < a && probes(acts) == r + 1
                && liveness_questions(acts) == r && pauses(acts) == r && terminations(acts) == 0)
            ||| (acts.last() == PollAction::ReportExited && r < a && probes(acts) == r + 1
                && liveness_questions(acts) == r + 1 && pauses(acts) == r && terminations(acts) == 0)
            ||| (acts.last() == PollAction::ReportTimeout(plan.timeout) && r == a && probes(acts) == a
                && liveness_questions(acts) == a && pauses(acts) == a && terminations(acts) == 1)
        },
    }
}

proof fn lemma_count_push(acts: Seq<PollAction>, a: PollAction, kind: nat)
    ensures
        count_actions(acts.push(a), kind) == count_actions(acts, kind) + if action_kind(a) == kind {
            1nat
        } else {
            0nat
        },
{
    assert(acts.push(a).drop_last() =~= acts);
}

proof fn lemma_count_one(a: PollAction, kind: nat)
    ensures
        count_actions(seq![a], kind) == if action_kind(a) == kind {
            1nat
        } else {
            0nat
        },
{
    assert(seq![a].drop_last() =~= Seq::<PollAction>::empty());
    assert(count_actions(Seq::<PollAction>::empty(), kind) == 0);
    assert(seq![a].last() == a);
}

/// Every state the polling reaches satisfies `poll_inv`.
pub proof fn lemma_poll_run_inv(plan: PollPlan, events: Seq<PollEvent>)
    requires
        plan.attempts >= 1,
    ensures
        poll_inv(plan, poll_run(plan, events).0, poll_run(plan, events).1),
    decreases events.len(),
{
    if events.len() == 0 {
        let acts = seq![PollAction::Probe(plan.port)];
        lemma_count_one(PollAction::Probe(plan.port), 0);
        lemma_count_one(PollAction::Probe(plan.port), 1);
        lemma_count_one(PollAction::Probe(plan.port), 2);
        lemma_count_one(PollAction::Probe(plan.port), 3);
        assert(poll_inv(plan, poll_initial(), acts));
    } else {
        lemma_poll_run_inv(plan, events.drop_last());
        let (before, acts) = poll_run(plan, events.drop_last());
        let (after, act) = poll_next(plan, before, events.last());
        if act != PollAction::Ignore {
            lemma_poll_step_inv(plan, before, acts, events.last());
        }
    }
}

proof fn lemma_poll_step_inv(plan: PollPlan, s: PollState, acts: Seq<PollAction>, e: PollEvent)
    requires
        plan.attempts >= 1,
        poll_inv(plan, s, acts),
        poll_next(plan, s, e).1 != PollAction::Ignore,
    ensures
        poll_inv(plan, poll_next(plan, s, e).0, acts.push(poll_next(plan, s, e).1)),
{
    let (after, act) = poll_next(plan, s, e);
    let next = acts.push(act);
    lemma_count_push(acts, act, 0);
    lemma_count_push(acts, act, 1);
    lemma_count_push(acts, act, 2);
    lemma_count_push(acts, act, 3);
    assert forall|i: int| 0 <= i < next.len() && #[trigger] next[i] is Probe implies next[i]
        == PollAction::Probe(plan.port) by {
        if i < acts.len() {
            assert(next[i] == acts[i]);
        }
    }
    assert forall|i: int| 0 <= i < next.len() && #[trigger] next[i] is Pause implies next[i]
        == PollAction::Pause(plan.interval) by {
        if i < acts.len() {
            assert(next[i] == acts[i]);
        }
    }
    assert(next.last() == act);
    match s.phase {
        PollPhase::Probing => {
            assert(e is Answered);
            if e == (PollEvent::Answered { ready: true }) {
                assert(act == PollAction::ReportReady(plan.port));
                assert(after.phase == PollPhase::Finished && after.round == s.round);
            } else {
                assert(act == PollAction::AskLiveness);
            }
        },
        PollPhase::AskingLiveness => {
            assert(e is Liveness);
        },
        PollPhase::Pausing => {
            assert(e is Paused);
            if s.round + 1 < plan.attempts {
                assert(act == PollAction::Probe(plan.port));
                assert(after.round == s.round + 1);
            } else {
                assert(act == PollAction::Terminate);
                assert(s.round + 1 == plan.attempts);
            }
        },
        PollPhase::Terminating => {
            assert(e is Terminated);
            assert(act == PollAction::ReportTimeout(plan.timeout));
        },
        PollPhase::Finished => {
            assert(act == PollAction::Ignore);
        },
    }
    assert(poll_inv(plan, after, next));
}


/// The log text shown after an early exit: the last lines of the application log, or when
/// those are blank, the last lines of the JVM's own output.
pub open spec fn diagnostic_choice(app_tail: Seq<char>, console_tail: Seq<char>) -> Seq<char> {
    if is_blank(app_tail) {
        console_tail
    } else {
        app_tail
    }
}

/// `text` is what the diagnosis shows for the log directory `log_dir` when `read` hands back
/// the end of each log file: the application log is read first, the JVM's own output only
/// when the former is blank.
pub open spec fn diagnosed<F: Fn(&str) -> Vec<u8>>(read: F, log_dir: Seq<char>, text: Seq<char>) -> bool {
    exists|app_file: &str, app_bytes: Vec<u8>, console_file: &str, console_bytes: Vec<u8>|
        {
            &&& app_file@ == log_file_of(log_dir)
            &&& read.ensures((app_file,), app_bytes)
            &&& is_blank(tail_text(app_bytes@, DIAGNOSTIC_LINES as nat)) ==> {
                &&& console_file@ == console_log_of(log_dir)
                &&& read.ensures((console_file,), console_bytes)
            }
            &&& text == diagnostic_choice(
                tail_text(app_bytes@, DIAGNOSTIC_LINES as nat),
                tail_text(console_bytes@, DIAGNOSTIC_LINES as nat),
            )
        }
}

/// The end of a log file to read: its last `LOG_WINDOW_BYTES` bytes, or all of it.
pub fn log_window(len: u64) -> (w: u64)
    ensures
        w == if len < LOG_WINDOW_BYTES {
            len
        } else {
            LOG_WINDOW_BYTES
        },
{
    if len < LOG_WINDOW_BYTES {
        len
    } else {
        LOG_WINDOW_BYTES
    }
}

/// The log text to show after an early exit (see `diagnosed`); `read_log_window` hands back
/// the end of the named file, empty when it cannot be read.
pub fn diagnostic_tail<F: Fn(&str) -> Vec<u8>>(config: &LaunchConfig, read_log_window: &F) -> (text: String)
    requires
        forall|s: &str| read_log_window.requires((s,)),
    ensures
        diagnosed(*read_log_window, config.log_dir@, text@),
{
    let app_file = config.log_file();
    let app_name: &str = app_file.as_str();
    let app_bytes = read_log_window(app_name);
    let app_tail = last_lines_chars(app_bytes.as_slice(), DIAGNOSTIC_LINES);
    if blank(&app_tail) {
        let console_file = config.console_log();
        let console_name: &str = console_file.as_str();
        let console_bytes = read_log_window(console_name);
        let console_tail = last_lines_chars(console_bytes.as_slice(), DIAGNOSTIC_LINES);
        let text = string_from_chars(&console_tail);
        assert(read_log_window.ensures((app_name,), app_bytes));
        assert(read_log_window.ensures((console_name,), console_bytes));
        text
    } else {
        let text = string_from_chars(&app_tail);
        assert(read_log_window.ensures((app_name,), app_bytes));
        assert(text@ == diagnostic_choice(
            tail_text(app_bytes@, DIAGNOSTIC_LINES as nat),
            tail_text(app_bytes@, DIAGNOSTIC_LINES as nat),
        ));
        assert(diagnosed(*read_log_window, config.log_dir@, text@)) by {
            assert(is_blank(tail_text(app_bytes@, DIAGNOSTIC_LINES as nat)) ==> false);
        }
        text
    }
}

/// `r` is what the polling reports when its last action is `last`: ready on the port, an
/// early exit with the log text of `diagnosed`, or the timeout.
pub open spec fn reported<F: Fn(&str) -> Vec<u8>>(
    r: Result<RunningSidecar, SidecarError>,
    last: PollAction,
    log_dir: Seq<char>,
    read: F,
) -> bool {
    match last {
        PollAction::ReportReady(port) => r matches Ok(run) && run.port == port,
        PollAction::ReportExited => r matches Err(SidecarError::JvmExitedEarly { log_tail, .. })
            && diagnosed(read, log_dir, log_tail@),
        PollAction::ReportTimeout(waited) => r matches Err(SidecarError::StartupTimeout(w)) && w
            == waited,
        _ => false,
    }
}

/// `r` is the outcome of polling by `plan` when the health endpoint and the process gave the
/// answers `events`: the polling finished on them, and `r` reports its last action.
pub open spec fn polled_as<F: Fn(&str) -> Vec<u8>>(
    r: Result<RunningSidecar, SidecarError>,
    plan: PollPlan,
    events: Seq<PollEvent>,
    log_dir: Seq<char>,
    read: F,
) -> bool {
    let (s, acts) = poll_run(plan, events);
    &&& s.phase == PollPhase::Finished
    &&& reported(r, acts.last(), log_dir, read)
}

/// `r` is what polling by the plan for the start parameters `p` reports for some answers of the
/// health endpoint and the process.
pub open spec fn started_as<F: Fn(&str) -> Vec<u8>>(
    r: Result<RunningSidecar, SidecarError>,
    p: &StartParams,
    read: F,
) -> bool {
    exists|plan: PollPlan, events: Seq<PollEvent>|
        plan_for(plan, p.config.port, p.poll_interval, p.max_attempts) && polled_as(
            r,
            plan,
            events,
            p.config.log_dir@,
            read,
        )
}

/// What the JVM is launched with.
pub struct LaunchRequest {
    pub java_bin: String,
    pub jar: String,
    pub env: Vec<(String, String)>,
    pub stdio_log: String,
}

/// The launch of the backend: the bundled Java executable running the jar, with the
/// environment of `build_env` and its output going to the configuration's console log, which
/// is another file than the application log.
pub fn launch_request(resources: &Resources, config: &LaunchConfig) -> (req: LaunchRequest)
    ensures
        req.java_bin@ == resources.java_bin@,
        req.jar@ == resources.jar@,
        env_view(req.env@) == config.env(),
        req.stdio_log@ == console_log_of(config.log_dir@),
        !verbatim(config.log_dir@) ==> req.stdio_log@ != log_file_of(config.log_dir@),
{
    let req = LaunchRequest {
        java_bin: resources.java_bin.clone(),
        jar: resources.jar.clone(),
        env: build_env(config),
        stdio_log: config.console_log(),
    };
    proof {
        if !verbatim(config.log_dir@) {
            reveal_strlit("kafka-console.log");
            reveal_strlit("jvm.out.log");
            let app = log_file_of(config.log_dir@);
            let out = req.stdio_log@;
            lemma_inside_ends_with(config.log_dir@, "kafka-console.log"@, app);
            lemma_inside_ends_with(config.log_dir@, "jvm.out.log"@, out);
            assert(app[app.len() - 5] == 'e');
            assert(out[out.len() - 5] == 't');
        }
    }
    req
}

pub open spec fn poll_measure(plan: PollPlan, s: PollState) -> int {
    let rank: int = match s.phase {
        PollPhase::Probing => 4,
        PollPhase::AskingLiveness => 3,
        PollPhase::Pausing => 2,
        PollPhase::Terminating => 1,
        PollPhase::Finished => 0,
    };
    (plan.attempts - s.round) * 5 + rank
}

impl SidecarManager<'_> {
    /// Launches the JVM as `launch_request` says, then goes on as `after_launch` does with what
    /// the spawner handed back. Whether the start succeeds is decided by the spawner and the
    /// health probe, which carry no contract: success comes only through the polling's report
    /// that the backend is ready, on the configured port.
    pub fn start<F: Fn(&str) -> Vec<u8>>(&self, p: &StartParams, read_log_window: F) -> (r: Result<
        RunningSidecar,
        SidecarError,
    >)
        requires
            forall|s: &str| read_log_window.requires((s,)),
        ensures
            r matches Ok(run) ==> run.port == p.config.port,
            r is Ok ==> started_as(r, p, read_log_window),
    {
        let req = launch_request(p.resources, p.config);
        let launched = self.spawner.spawn(
            req.java_bin.as_str(),
            req.jar.as_str(),
            req.env.as_slice(),
            req.stdio_log.as_str(),
        );
        self.after_launch(launched, p, read_log_window)
    }

    /// The rest of a start once the launch was tried: an error from launching is handed back
    /// as it came; a launched process is polled as `wait_until_ready` does.
    pub fn after_launch<F: Fn(&str) -> Vec<u8>>(
        &self,
        launched: Result<Box<dyn ManagedProcess>, SidecarError>,
        p: &StartParams,
        read_log_window: F,
    ) -> (r: Result<RunningSidecar, SidecarError>)
        requires
            forall|s: &str| read_log_window.requires((s,)),
        ensures
            launched is Err ==> r is Err && r->Err_0 == launched->Err_0,
            launched is Ok ==> started_as(r, p, read_log_window),
            r matches Ok(run) ==> run.port == p.config.port,
    {
        match launched {
            Ok(process) => self.wait_until_ready(process, p, read_log_window),
            Err(e) => Err(e),
        }
    }

    /// Polls a launched backend by the steps of `poll_step` for the plan of `poll_plan`: asks
    /// the health endpoint on the configured port, then, when it did not answer, whether the
    /// process runs, pauses for the poll interval, and after the last round (at least one)
    /// terminates the process. The result is what the polling reports for the answers given:
    /// ready on the configured port; `JvmExitedEarly` with the process's exit code and the log
    /// text of `diagnostic_tail`; or `StartupTimeout` with the poll interval times the number
    /// of rounds.
    pub fn wait_until_ready<F: Fn(&str) -> Vec<u8>>(
        &self,
        process: Box<dyn ManagedProcess>,
        p: &StartParams,
        read_log_window: F,
    ) -> (r: Result<RunningSidecar, SidecarError>)
        requires
            forall|s: &str| read_log_window.requires((s,)),
        ensures
            r matches Ok(run) ==> run.port == p.config.port,
            started_as(r, p, read_log_window),
    {
        let mut process = process;
        let plan = poll_plan(p.config.port, p.poll_interval, p.max_attempts);
        let (mut state, mut action) = poll_begin(&plan);
        let ghost mut events: Seq<PollEvent> = seq![];
        proof {
            lemma_poll_run_inv(plan, events);
        }
        loop
            invariant
                plan_for(plan, p.config.port, p.poll_interval, p.max_attempts),
                plan.attempts >= 1,
                forall|s: &str| read_log_window.requires((s,)),
                poll_run(plan, events) == (state, poll_run(plan, events).1),
                poll_run(plan, events).1.last() == action,
                poll_inv(plan, state, poll_run(plan, events).1),
            decreases poll_measure(plan, state),
        {
            let event = match action {
                PollAction::Probe(port) => PollEvent::Answered { ready: self.probe.is_ready(port) },
                PollAction::AskLiveness => PollEvent::Liveness { running: process.is_running() },
                PollAction::Pause(pause) => {
                    self.sleeper.sleep(pause);
                    PollEvent::Paused
                },
                PollAction::Terminate => {
                    let _ = process.terminate();
                    PollEvent::Terminated
                },
                PollAction::ReportReady(port) => {
                    let r = Ok(RunningSidecar { port, process });
                    assert(polled_as(r, plan, events, p.config.log_dir@, read_log_window));
                    return r;
                },
                PollAction::ReportExited => {
                    let code = process.exit_code();
                    let log_tail = diagnostic_tail(p.config, &read_log_window);
                    let r = Err(SidecarError::JvmExitedEarly { code, log_tail });
                    assert(polled_as(r, plan, events, p.config.log_dir@, read_log_window));
                    return r;
                },
                PollAction::ReportTimeout(waited) => {
                    let r = Err(SidecarError::StartupTimeout(waited));
                    assert(polled_as(r, plan, events, p.config.log_dir@, read_log_window));
                    return r;
                },
                PollAction::Ignore => {
                    // `poll_inv` rules this out: the last action is never `Ignore`.
                    proof {
                        assert(false);
                    }
                    return Err(SidecarError::StartupTimeout(plan.timeout));
                },
            };
            let ghost before = events;
            let (next_state, next_action) = poll_step(&plan, state, event);
            proof {
                events = events.push(event);
                assert(events.drop_last() =~= before);
                assert(next_action != PollAction::Ignore);
                lemma_poll_run_inv(plan, events);
            }
            state = next_state;
            action = next_action;
        }
    }
}

/// The application's pause between polls.
pub fn startup_poll_interval() -> (d: Duration)
    ensures
        d@ == STARTUP_POLL_MILLIS * 1_000_000,
{
    Duration::from_millis(STARTUP_POLL_MILLIS)
}


/// Each round asks the health endpoint first: an answer makes the backend ready whatever
/// the process does, and liveness is asked only after the endpoint did not answer.
pub proof fn lemma_health_decides_first(plan: PollPlan, s: PollState, e: PollEvent)
    ensures
        s.phase == PollPhase::Probing && e == (PollEvent::Answered { ready: true }) ==> poll_next(
            plan,
            s,
            e,
        ).1 == PollAction::ReportReady(plan.port),
        poll_next(plan, s, e).1 == PollAction::AskLiveness ==> s.phase == PollPhase::Probing && e
            == (PollEvent::Answered { ready: false }),
        poll_next(plan, s, e).1 == PollAction::ReportExited ==> e == (PollEvent::Liveness {
            running: false,
        }),
{
}

/// Whenever the health endpoint answers a probe, the polling finishes and reports the
/// backend ready on the plan's port, whatever the process was doing: a start whose answers end
/// so succeeds.
pub proof fn lemma_ready_answer_wins(plan: PollPlan, events: Seq<PollEvent>)
    requires
        events.len() > 0,
        poll_run(plan, events.drop_last()).0.phase == PollPhase::Probing,
        events.last() == (PollEvent::Answered { ready: true }),
    ensures
        poll_run(plan, events).0.phase == PollPhase::Finished,
        poll_run(plan, events).1.last() == PollAction::ReportReady(plan.port),
{
    let (before, acts) = poll_run(plan, events.drop_last());
    assert(poll_next(plan, before, events.last()).1 == PollAction::ReportReady(plan.port));
    assert(acts.push(PollAction::ReportReady(plan.port)).last() == PollAction::ReportReady(plan.port));
}

/// At least one round is made, and exactly the limit asked for when it is not zero.
pub proof fn lemma_at_least_one_round(max_attempts: u32)
    ensures
        effective_attempts(max_attempts) >= 1,
        max_attempts > 0 ==> effective_attempts(max_attempts) == max_attempts,
{
}

/// Over any answers, the polling asks the health endpoint on the configured port and pauses
/// for the poll interval at most once per round allowed, and terminates the process at most
/// once. When it reports a timeout, it asked the endpoint and paused once in every round and
/// terminated the process once. When it reports the backend ready, or gone, in some round, it
/// paused once after each earlier round and never terminated the process.
pub proof fn lemma_poll_counts(plan: PollPlan, events: Seq<PollEvent>)
    requires
        plan.attempts >= 1,
    ensures
        ({
            let (s, acts) = poll_run(plan, events);
            &&& probes(acts) <= plan.attempts
            &&& pauses(acts) <= plan.attempts
            &&& terminations(acts) <= 1
            &&& forall|i: int| 0 <= i < acts.len() && #[trigger] acts[i] is Probe ==> acts[i]
                == PollAction::Probe(plan.port)
            &&& forall|i: int| 0 <= i < acts.len() && #[trigger] acts[i] is Pause ==> acts[i]
                == PollAction::Pause(plan.interval)
            &&& acts.last() is ReportTimeout ==> probes(acts) == plan.attempts && pauses(acts)
                == plan.attempts && terminations(acts) == 1
            &&& (acts.last() is ReportReady || acts.last() is ReportExited) ==> pauses(acts) + 1
                == probes(acts) && terminations(acts) == 0
        }),
{
    lemma_poll_run_inv(plan, events);
}

/// The application's startup budget: 120 rounds of 500 ms wait at most 60 seconds.
pub proof fn lemma_startup_budget(poll_interval: Duration)
    requires
        poll_interval@ == STARTUP_POLL_MILLIS * 1_000_000,
    ensures
        timeout_span(poll_interval, STARTUP_MAX_ATTEMPTS) == 60 * nanos_per_sec(),
{
    assert(500_000_000nat * 120 == 60_000_000_000nat);
}

} // verus!
