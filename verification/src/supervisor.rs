//! The decisions of the running application: watching the backend and restarting it once,
//! and what closing a window or choosing a tray entry does.
use vstd::prelude::*;
use crate::text::same_text;

verus! {

/// Where the watchdog stands.
#[derive(Debug, Clone, Copy, PartialEq, Eq)]
pub enum WatchPhase {
    /// Checking the backend every few seconds.
    Watching,
    /// The backend died for the first time; about to make sure the application is not
    /// shutting down before restarting it.
    ConfirmingRestart,
    /// A restart of the backend is under way.
    Restarting,
    /// The watchdog has ended.
    Stopped,
}

#[derive(Debug, Clone, Copy, PartialEq, Eq)]
pub struct WatchState {
    pub phase: WatchPhase,
    /// Whether the one automatic restart has been used.
    pub restarted_once: bool,
}

/// What the watchdog learns.
#[derive(Debug, Clone, Copy, PartialEq, Eq)]
pub enum WatchEvent {
    /// A periodic check: whether the application is shutting down, and whether the backend
    /// process it holds has exited.
    Tick { shutting_down: bool, process_dead: bool },
    /// Whether the application is shutting down, read again just before a restart.
    ShutdownCheck { shutting_down: bool },
    /// The result of a restart (the new port when it succeeded), and whether the application
    /// began shutting down meanwhile.
    Restarted { port: Option<u16>, shutting_down: bool },
}

/// Why the application gives up.
#[derive(Debug, Clone, Copy, PartialEq, Eq)]
pub enum FatalReason {
    /// The backend exited again after its automatic restart.
    CrashedAgain,
    /// The automatic restart failed.
    RestartFailed,
}

/// What the watchdog does next.
#[derive(Debug, Clone, Copy, PartialEq, Eq)]
pub enum WatchAction {
    /// Wait for the next check.
    Wait,
    /// End quietly.
    Stop,
    /// Read again whether the application is shutting down.
    CheckShutdown,
    /// Start the backend again.
    StartBackend,
    /// The application began shutting down during the restart: terminate the new process and
    /// end.
    TerminateNewAndStop,
    /// Point the main window at the restarted backend and show it, then go on watching.
    Reload(u16),
    /// Terminate the backend, tell the user and quit.
    Fatal(FatalReason),
}

pub open spec fn initial_watch() -> WatchState {
    WatchState { phase: WatchPhase::Watching, restarted_once: false }
}

/// One step of the watchdog.
pub open spec fn watch_next(s: WatchState, e: WatchEvent) -> (WatchState, WatchAction) {
    let stopped = WatchState { phase: WatchPhase::Stopped, ..s };
    match (s.phase, e) {
        (WatchPhase::Watching, WatchEvent::Tick { shutting_down, process_dead }) => {
            if shutting_down {
                (stopped, WatchAction::Stop)
            } else if !process_dead {
                (s, WatchAction::Wait)
            } else if s.restarted_once {
                (stopped, WatchAction::Fatal(FatalReason::CrashedAgain))
            } else {
                (
                    WatchState { phase: WatchPhase::ConfirmingRestart, restarted_once: true },
                    WatchAction::CheckShutdown,
                )
            }
        },
        (WatchPhase::ConfirmingRestart, WatchEvent::ShutdownCheck { shutting_down }) => {
            if shutting_down {
                (stopped, WatchAction::Stop)
            } else {
                (WatchState { phase: WatchPhase::Restarting, ..s }, WatchAction::StartBackend)
            }
        },
        (WatchPhase::Restarting, WatchEvent::Restarted { port, shutting_down }) => {
            match port {
                Some(p) => if shutting_down {
                    (stopped, WatchAction::TerminateNewAndStop)
                } else {
                    (WatchState { phase: WatchPhase::Watching, ..s }, WatchAction::Reload(p))
                },
                None => (stopped, WatchAction::Fatal(FatalReason::RestartFailed)),
            }
        },
        _ => (stopped, WatchAction::Stop),
    }
}

/// The watchdog before its first check.
pub fn watch_start() -> (s: WatchState)
    ensures
        s == initial_watch(),
{
    WatchState { phase: WatchPhase::Watching, restarted_once: false }
}

/// Decides the watchdog's next action. A backend found dead is restarted once, unless the
/// application is shutting down; found dead again, the application gives up.
pub fn watch_step(s: WatchState, e: WatchEvent) -> (r: (WatchState, WatchAction))
    ensures
        r == watch_next(s, e),
        s.phase == WatchPhase::Watching && e == (WatchEvent::Tick {
            shutting_down: false,
            process_dead: false,
        }) ==> r == (s, WatchAction::Wait),
        r.1 == WatchAction::Fatal(FatalReason::CrashedAgain) ==> s.phase == WatchPhase::Watching
            && s.restarted_once && e == (WatchEvent::Tick { shutting_down: false, process_dead: true }),
        r.1 == WatchAction::Fatal(FatalReason::RestartFailed) ==> s.phase == WatchPhase::Restarting
            && e is Restarted && e->Restarted_port is None,
{
    proof {
        lemma_live_backend_keeps_being_watched(s);
        lemma_crash_verdict_needs_a_dead_backend(s, e);
    }
    let stopped = WatchState { phase: WatchPhase::Stopped, restarted_once: s.restarted_once };
    match (s.phase, e) {
        (WatchPhase::Watching, WatchEvent::Tick { shutting_down, process_dead }) => {
            if shutting_down {
                (stopped, WatchAction::Stop)
            } else if !process_dead {
                (s, WatchAction::Wait)
            } else if s.restarted_once {
                (stopped, WatchAction::Fatal(FatalReason::CrashedAgain))
            } else {
                (
                    WatchState { phase: WatchPhase::ConfirmingRestart, restarted_once: true },
                    WatchAction::CheckShutdown,
                )
            }
        },
        (WatchPhase::ConfirmingRestart, WatchEvent::ShutdownCheck { shutting_down }) => {
            if shutting_down {
                (stopped, WatchAction::Stop)
            } else {
                (
                    WatchState { phase: WatchPhase::Restarting, restarted_once: s.restarted_once },
                    WatchAction::StartBackend,
                )
            }
        },
        (WatchPhase::Restarting, WatchEvent::Restarted { port, shutting_down }) => {
            match port {
                Some(p) => if shutting_down {
                    (stopped, WatchAction::TerminateNewAndStop)
                } else {
                    (
                        WatchState { phase: WatchPhase::Watching, restarted_once: s.restarted_once },
                        WatchAction::Reload(p),
                    )
                },
                None => (stopped, WatchAction::Fatal(FatalReason::RestartFailed)),
            }
        },
        _ => (stopped, WatchAction::Stop),
    }
}

/// The state after a sequence of events, and the actions decided on the way.
pub open spec fn watch_run(s: WatchState, events: Seq<WatchEvent>) -> (WatchState, Seq<WatchAction>)
    decreases events.len(),
{
    if events.len() == 0 {
        (s, seq![])
    } else {
        let (before, acts) = watch_run(s, events.drop_last());
        let (after, act) = watch_next(before, events.last());
        (after, acts.push(act))
    }
}

/// How many restarts a sequence of actions holds.
pub open spec fn restarts(acts: Seq<WatchAction>) -> nat
    decreases acts.len(),
{
    if acts.len() == 0 {
        0
    } else {
        restarts(acts.drop_last()) + if acts.last() == WatchAction::StartBackend {
            1nat
        } else {
            0nat
        }
    }
}

/// What holds of every state the watchdog reaches, given the restarts it decided.
pub open spec fn watch_consistent(s: WatchState, starts: nat) -> bool {
    &&& starts <= 1
    &&& !s.restarted_once ==> starts == 0
    &&& s.phase == WatchPhase::ConfirmingRestart ==> starts == 0 && s.restarted_once
    &&& s.phase == WatchPhase::Restarting ==> s.restarted_once
}

proof fn lemma_watch_run_consistent(events: Seq<WatchEvent>)
    ensures
        watch_consistent(watch_run(initial_watch(), events).0, restarts(watch_run(initial_watch(), events).1)),
        watch_run(initial_watch(), events).1.len() == events.len(),
    decreases events.len(),
{
    if events.len() > 0 {
        lemma_watch_run_consistent(events.drop_last());
        let (before, acts) = watch_run(initial_watch(), events.drop_last());
        let (after, act) = watch_next(before, events.last());
        assert(acts.push(act).drop_last() =~= acts);
    }
}

/// The backend is restarted automatically at most once, whatever happens.
pub proof fn lemma_restarts_at_most_once(events: Seq<WatchEvent>)
    ensures
        restarts(watch_run(initial_watch(), events).1) <= 1,
{
    lemma_watch_run_consistent(events);
}

/// A backend found dead after its restart makes the application give up.
pub proof fn lemma_second_crash_is_fatal(s: WatchState)
    requires
        s.phase == WatchPhase::Watching,
        s.restarted_once,
    ensures
        watch_next(s, WatchEvent::Tick { shutting_down: false, process_dead: true })
            == (WatchState { phase: WatchPhase::Stopped, ..s }, WatchAction::Fatal(
            FatalReason::CrashedAgain,
        )),
{
}

/// While the application shuts down, the watchdog neither restarts the backend nor reports a
/// failure: it ends, terminating a process that a restart just brought up.
pub proof fn lemma_shutdown_wins(s: WatchState, e: WatchEvent)
    requires
        e matches WatchEvent::Tick { shutting_down, .. } ==> shutting_down,
        e matches WatchEvent::ShutdownCheck { shutting_down } ==> shutting_down,
        e matches WatchEvent::Restarted { shutting_down, .. } ==> shutting_down,
    ensures
        watch_next(s, e).0.phase == WatchPhase::Stopped,
        watch_next(s, e).1 == WatchAction::Stop || watch_next(s, e).1
            == WatchAction::TerminateNewAndStop || watch_next(s, e).1 == WatchAction::Fatal(
            FatalReason::RestartFailed,
        ),
{
}

/// Once ended, the watchdog stays ended and does nothing more.
pub proof fn lemma_stopped_stays_stopped(s: WatchState, e: WatchEvent)
    requires
        s.phase == WatchPhase::Stopped,
    ensures
        watch_next(s, e).0.phase == WatchPhase::Stopped,
        watch_next(s, e).1 == WatchAction::Stop,
{
}

/// The message shown when the application gives up.
pub open spec fn fatal_text(reason: FatalReason) -> Seq<char> {
    match reason {
        FatalReason::CrashedAgain => "后端进程多次异常退出，应用将关闭。请通过托盘菜单或日志排查。"@,
        FatalReason::RestartFailed => "后端重启失败，应用将关闭。"@,
    }
}

pub fn fatal_message(reason: FatalReason) -> (m: String)
    ensures
        m@ == fatal_text(reason),
{
    match reason {
        FatalReason::CrashedAgain => String::from_str(
            "后端进程多次异常退出，应用将关闭。请通过托盘菜单或日志排查。",
        ),
        FatalReason::RestartFailed => String::from_str("后端重启失败，应用将关闭。"),
    }
}

/// Window events that the application handles.
#[derive(Debug, Clone, Copy, PartialEq, Eq)]
pub enum WindowEventKind {
    CloseRequested,
    Destroyed,
}

/// What the application does about a window event.
#[derive(Debug, Clone, Copy, PartialEq, Eq)]
pub enum WindowResponse {
    /// Keep the window and hide it: the application stays in the tray.
    HideToTray,
    /// The splash window went away before the main window existed: stop the backend and quit.
    CancelStartup,
    /// Nothing special.
    Default,
}

pub open spec fn window_response_of(kind: WindowEventKind, label: Seq<char>, main_exists: bool) -> WindowResponse {
    if kind == WindowEventKind::CloseRequested && label == "main"@ {
        WindowResponse::HideToTray
    } else if kind == WindowEventKind::Destroyed && label == "splash"@ && !main_exists {
        WindowResponse::CancelStartup
    } else {
        WindowResponse::Default
    }
}

/// Closing the main window hides it to the tray; closing the splash window while the backend
/// is still starting cancels the start; anything else takes its usual course.
pub fn window_response(kind: WindowEventKind, label: &str, main_exists: bool) -> (r: WindowResponse)
    ensures
        r == window_response_of(kind, label@, main_exists),
        r == WindowResponse::HideToTray <==> (kind == WindowEventKind::CloseRequested && label@
            == "main"@),
        r == WindowResponse::CancelStartup <==> (kind == WindowEventKind::Destroyed && label@
            == "splash"@ && !main_exists),
{
    proof {
        lemma_only_main_hides(kind, label@, main_exists);
    }
    match kind {
        WindowEventKind::CloseRequested => if same_text(label, "main") {
            WindowResponse::HideToTray
        } else {
            WindowResponse::Default
        },
        WindowEventKind::Destroyed => if same_text(label, "splash") && !main_exists {
            WindowResponse::CancelStartup
        } else {
            WindowResponse::Default
        },
    }
}

/// A check that finds the backend alive, while the application is not shutting down, changes
/// nothing and waits for the next check, whether or not the one restart has been used.
pub proof fn lemma_live_backend_keeps_being_watched(s: WatchState)
    ensures
        s.phase == WatchPhase::Watching ==> watch_next(
            s,
            WatchEvent::Tick { shutting_down: false, process_dead: false },
        ) == (s, WatchAction::Wait),
{
}

/// The application gives up because the backend crashed again only on a check that found the
/// backend dead, while not shutting down, after the one restart was used; it gives up because
/// the restart failed only when a restart reported no port.
pub proof fn lemma_crash_verdict_needs_a_dead_backend(s: WatchState, e: WatchEvent)
    ensures
        watch_next(s, e).1 == WatchAction::Fatal(FatalReason::CrashedAgain) ==> s.phase
            == WatchPhase::Watching && s.restarted_once && e == (WatchEvent::Tick {
            shutting_down: false,
            process_dead: true,
        }),
        watch_next(s, e).1 == WatchAction::Fatal(FatalReason::RestartFailed) ==> s.phase
            == WatchPhase::Restarting && e is Restarted && e->Restarted_port is None,
{
}

/// Only the main window hides to the tray when closed; a close request on any other window
/// (the splash among them) takes its usual course. Only the splash window going away before
/// the main window exists cancels the start.
pub proof fn lemma_only_main_hides(kind: WindowEventKind, label: Seq<char>, main_exists: bool)
    ensures
        window_response_of(kind, label, main_exists) == WindowResponse::HideToTray <==> (kind
            == WindowEventKind::CloseRequested && label == "main"@),
        kind == WindowEventKind::CloseRequested && label != "main"@ ==> window_response_of(
            kind,
            label,
            main_exists,
        ) == WindowResponse::Default,
        window_response_of(kind, label, main_exists) == WindowResponse::CancelStartup <==> (kind
            == WindowEventKind::Destroyed && label == "splash"@ && !main_exists),
{
}

/// Closing the main window never quits the application.
pub proof fn lemma_closing_main_keeps_running(main_exists: bool)
    ensures
        window_response_of(WindowEventKind::CloseRequested, "main"@, main_exists)
            == WindowResponse::HideToTray,
{
}

/// The entries of the tray and application menus.
#[derive(Debug, Clone, Copy, PartialEq, Eq)]
pub enum MenuCommand {
    ShowMain,
    OpenSettings,
    Quit,
    Ignore,
}

pub open spec fn menu_command_of(id: Seq<char>) -> MenuCommand {
    if id == "show"@ {
        MenuCommand::ShowMain
    } else if id == "settings"@ {
        MenuCommand::OpenSettings
    } else if id == "quit"@ {
        MenuCommand::Quit
    } else {
        MenuCommand::Ignore
    }
}

/// The command of a menu entry, by its id.
pub fn menu_command(id: &str) -> (c: MenuCommand)
    ensures
        c == menu_command_of(id@),
{
    if same_text(id, "show") {
        MenuCommand::ShowMain
    } else if same_text(id, "settings") {
        MenuCommand::OpenSettings
    } else if same_text(id, "quit") {
        MenuCommand::Quit
    } else {
        MenuCommand::Ignore
    }
}

/// The question asked before installing an update.
pub open spec fn update_prompt_text(version: Seq<char>) -> Seq<char> {
    "发现新版本 "@ + version + "，是否现在更新？"@
}

pub fn update_prompt(version: &str) -> (m: String)
    ensures
        m@ == update_prompt_text(version@),
{
    let mut m = String::from_str("发现新版本 ");
    m.append(version);
    m.append("，是否现在更新？");
    m
}

} // verus!
