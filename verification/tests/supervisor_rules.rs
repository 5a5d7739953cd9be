use kafka_console::supervisor::{
    fatal_message, menu_command, update_prompt, watch_start, watch_step, window_response,
    FatalReason, MenuCommand, WatchAction, WatchEvent, WatchPhase, WindowEventKind,
    WindowResponse,
};

fn tick(shutting_down: bool, process_dead: bool) -> WatchEvent {
    WatchEvent::Tick {
        shutting_down,
        process_dead,
    }
}

#[test]
fn healthy_backend_is_left_alone() {
    let s = watch_start();
    let (s2, a) = watch_step(s, tick(false, false));
    assert_eq!(a, WatchAction::Wait);
    assert_eq!(s2, s);
}

#[test]
fn first_crash_restarts_once_and_reloads() {
    let s = watch_start();
    let (s, a) = watch_step(s, tick(false, true));
    assert_eq!(a, WatchAction::CheckShutdown);
    assert!(s.restarted_once);
    let (s, a) = watch_step(s, WatchEvent::ShutdownCheck { shutting_down: false });
    assert_eq!(a, WatchAction::StartBackend);
    let (s, a) = watch_step(
        s,
        WatchEvent::Restarted {
            port: Some(41000),
            shutting_down: false,
        },
    );
    assert_eq!(a, WatchAction::Reload(41000));
    assert_eq!(s.phase, WatchPhase::Watching);
    let (s, a) = watch_step(s, tick(false, true));
    assert_eq!(a, WatchAction::Fatal(FatalReason::CrashedAgain));
    assert_eq!(s.phase, WatchPhase::Stopped);
}

#[test]
fn failed_restart_is_fatal() {
    let s = watch_start();
    let (s, _) = watch_step(s, tick(false, true));
    let (s, _) = watch_step(s, WatchEvent::ShutdownCheck { shutting_down: false });
    let (s, a) = watch_step(
        s,
        WatchEvent::Restarted {
            port: None,
            shutting_down: false,
        },
    );
    assert_eq!(a, WatchAction::Fatal(FatalReason::RestartFailed));
    assert_eq!(s.phase, WatchPhase::Stopped);
}

#[test]
fn shutdown_stops_the_watchdog() {
    let (s, a) = watch_step(watch_start(), tick(true, true));
    assert_eq!(a, WatchAction::Stop);
    assert_eq!(s.phase, WatchPhase::Stopped);
    let (_, a) = watch_step(s, tick(false, true));
    assert_eq!(a, WatchAction::Stop);

    let (s, _) = watch_step(watch_start(), tick(false, true));
    let (_, a) = watch_step(s, WatchEvent::ShutdownCheck { shutting_down: true });
    assert_eq!(a, WatchAction::Stop);

    let (s, _) = watch_step(watch_start(), tick(false, true));
    let (s, _) = watch_step(s, WatchEvent::ShutdownCheck { shutting_down: false });
    let (_, a) = watch_step(
        s,
        WatchEvent::Restarted {
            port: Some(5),
            shutting_down: true,
        },
    );
    assert_eq!(a, WatchAction::TerminateNewAndStop);
}

#[test]
fn fatal_messages() {
    assert_eq!(
        fatal_message(FatalReason::CrashedAgain),
        "后端进程多次异常退出，应用将关闭。请通过托盘菜单或日志排查。"
    );
    assert_eq!(
        fatal_message(FatalReason::RestartFailed),
        "后端重启失败，应用将关闭。"
    );
}

#[test]
fn closing_main_window_hides_to_tray() {
    assert_eq!(
        window_response(WindowEventKind::CloseRequested, "main", true),
        WindowResponse::HideToTray
    );
    assert_eq!(
        window_response(WindowEventKind::CloseRequested, "settings", true),
        WindowResponse::Default
    );
    assert_eq!(
        window_response(WindowEventKind::Destroyed, "splash", false),
        WindowResponse::CancelStartup
    );
    assert_eq!(
        window_response(WindowEventKind::Destroyed, "splash", true),
        WindowResponse::Default
    );
    assert_eq!(
        window_response(WindowEventKind::Destroyed, "main", false),
        WindowResponse::Default
    );
}

#[test]
fn menu_entries() {
    assert_eq!(menu_command("show"), MenuCommand::ShowMain);
    assert_eq!(menu_command("settings"), MenuCommand::OpenSettings);
    assert_eq!(menu_command("quit"), MenuCommand::Quit);
    assert_eq!(menu_command("quitting"), MenuCommand::Ignore);
    assert_eq!(menu_command(""), MenuCommand::Ignore);
}

#[test]
fn update_question_names_version() {
    assert_eq!(update_prompt("0.2.0"), "发现新版本 0.2.0，是否现在更新？");
}
