use kafka_console::config::LaunchConfig;
use kafka_console::error::SidecarError;
use kafka_console::resources::Resources;
use kafka_console::sidecar::{
    diagnostic_tail, launch_request, log_window, poll_begin, poll_plan, poll_step,
    startup_poll_interval, HealthProbe, ManagedProcess, PollAction, PollEvent, PollPhase,
    PollState, ProcessSpawner, SidecarManager, Sleeper, StartParams, STARTUP_MAX_ATTEMPTS,
};
use kafka_console::time::Duration;
use std::collections::HashMap;
use std::sync::atomic::{AtomicBool, AtomicU32, Ordering};
use std::sync::{Arc, Mutex};

pub struct FakeSleeper {
    pub count: AtomicU32,
}
impl Sleeper for FakeSleeper {
    fn sleep(&self, _dur: Duration) {
        self.count.fetch_add(1, Ordering::SeqCst);
    }
}

pub struct FakeProbe {
    pub ready_after: u32,
    pub calls: AtomicU32,
}
impl HealthProbe for FakeProbe {
    fn is_ready(&self, _port: u16) -> bool {
        let n = self.calls.fetch_add(1, Ordering::SeqCst) + 1;
        n >= self.ready_after
    }
}

struct FakeProcess {
    running: Arc<AtomicBool>,
    terminated: Arc<AtomicBool>,
    code: Option<i32>,
}
impl ManagedProcess for FakeProcess {
    fn is_running(&mut self) -> bool {
        self.running.load(Ordering::SeqCst)
    }
    fn exit_code(&mut self) -> Option<i32> {
        self.code
    }
    fn terminate(&mut self) -> Result<(), SidecarError> {
        self.terminated.store(true, Ordering::SeqCst);
        self.running.store(false, Ordering::SeqCst);
        Ok(())
    }
}

struct FakeSpawner {
    running: Arc<AtomicBool>,
    terminated: Arc<AtomicBool>,
    code: Option<i32>,
    seen_env: Mutex<Vec<(String, String)>>,
    seen_stdio: Mutex<String>,
}
impl ProcessSpawner for FakeSpawner {
    fn spawn(
        &self,
        _j: &str,
        _r: &str,
        e: &[(String, String)],
        stdio: &str,
    ) -> Result<Box<dyn ManagedProcess>, SidecarError> {
        *self.seen_env.lock().unwrap() = e.to_vec();
        *self.seen_stdio.lock().unwrap() = stdio.to_string();
        Ok(Box::new(FakeProcess {
            running: self.running.clone(),
            terminated: self.terminated.clone(),
            code: self.code,
        }))
    }
}

fn spawner(running: bool, terminated: Arc<AtomicBool>, code: Option<i32>) -> FakeSpawner {
    FakeSpawner {
        running: Arc::new(AtomicBool::new(running)),
        terminated,
        code,
        seen_env: Mutex::new(Vec::new()),
        seen_stdio: Mutex::new(String::new()),
    }
}

fn cfg() -> LaunchConfig {
    LaunchConfig {
        port: 40000,
        config_file: "/x/c.yaml".to_string(),
        log_dir: "/x/logs".to_string(),
        max_heap_mb: 512,
    }
}
fn res() -> Resources {
    Resources {
        java_bin: "/x/java".to_string(),
        jar: "/x/a.jar".to_string(),
    }
}

fn no_logs(_path: &str) -> Vec<u8> {
    Vec::new()
}

#[test]
fn fake_sleeper_counts() {
    let s = FakeSleeper {
        count: AtomicU32::new(0),
    };
    s.sleep(Duration::from_secs(99));
    assert_eq!(s.count.load(Ordering::SeqCst), 1);
}

#[test]
fn fake_probe_becomes_ready() {
    let p = FakeProbe {
        ready_after: 3,
        calls: AtomicU32::new(0),
    };
    assert!(!p.is_ready(1));
    assert!(!p.is_ready(1));
    assert!(p.is_ready(1));
}

#[test]
fn fake_process_contract() {
    let running = Arc::new(AtomicBool::new(true));
    let terminated = Arc::new(AtomicBool::new(false));
    let mut p = FakeProcess {
        running: running.clone(),
        terminated: terminated.clone(),
        code: None,
    };
    assert!(p.is_running());
    p.terminate().unwrap();
    assert!(terminated.load(Ordering::SeqCst));
    assert!(!p.is_running());
}

#[test]
fn succeeds_when_probe_becomes_ready() {
    let terminated = Arc::new(AtomicBool::new(false));
    let spawner = spawner(true, terminated, None);
    let probe = FakeProbe {
        ready_after: 3,
        calls: AtomicU32::new(0),
    };
    let sleeper = FakeSleeper {
        count: AtomicU32::new(0),
    };
    let mgr = SidecarManager {
        spawner: &spawner,
        probe: &probe,
        sleeper: &sleeper,
    };
    let c = cfg();
    let r = res();
    let params = StartParams {
        resources: &r,
        config: &c,
        max_attempts: 10,
        poll_interval: Duration::from_millis(1),
    };
    let run = mgr.start(&params, no_logs).unwrap();
    assert_eq!(run.port, 40000);
    assert_eq!(sleeper.count.load(Ordering::SeqCst), 2);
}

#[test]
fn errors_when_jvm_exits_early_with_code() {
    let terminated = Arc::new(AtomicBool::new(false));
    let spawner = spawner(false, terminated, Some(1));
    let probe = FakeProbe {
        ready_after: 99,
        calls: AtomicU32::new(0),
    };
    let sleeper = FakeSleeper {
        count: AtomicU32::new(0),
    };
    let mgr = SidecarManager {
        spawner: &spawner,
        probe: &probe,
        sleeper: &sleeper,
    };
    let c = cfg();
    let r = res();
    let params = StartParams {
        resources: &r,
        config: &c,
        max_attempts: 5,
        poll_interval: Duration::from_millis(1),
    };
    match mgr.start(&params, no_logs) {
        Err(SidecarError::JvmExitedEarly { code, .. }) => assert_eq!(code, Some(1)),
        Err(e) => panic!("期望 JvmExitedEarly，得到错误: {}", e.message()),
        Ok(_) => panic!("期望错误，却成功了"),
    }
}

#[test]
fn times_out_and_terminates() {
    let terminated = Arc::new(AtomicBool::new(false));
    let spawner = spawner(true, terminated.clone(), None);
    let probe = FakeProbe {
        ready_after: 999,
        calls: AtomicU32::new(0),
    };
    let sleeper = FakeSleeper {
        count: AtomicU32::new(0),
    };
    let mgr = SidecarManager {
        spawner: &spawner,
        probe: &probe,
        sleeper: &sleeper,
    };
    let c = cfg();
    let r = res();
    let params = StartParams {
        resources: &r,
        config: &c,
        max_attempts: 4,
        poll_interval: Duration::from_millis(1),
    };
    assert!(matches!(
        mgr.start(&params, no_logs),
        Err(SidecarError::StartupTimeout(_))
    ));
    assert!(terminated.load(Ordering::SeqCst), "超时后必须终止进程");
}

#[test]
fn timeout_reports_rounds_times_interval() {
    let terminated = Arc::new(AtomicBool::new(false));
    let spawner = spawner(true, terminated, None);
    let probe = FakeProbe {
        ready_after: 999,
        calls: AtomicU32::new(0),
    };
    let sleeper = FakeSleeper {
        count: AtomicU32::new(0),
    };
    let mgr = SidecarManager {
        spawner: &spawner,
        probe: &probe,
        sleeper: &sleeper,
    };
    let c = cfg();
    let r = res();
    let params = StartParams {
        resources: &r,
        config: &c,
        max_attempts: 4,
        poll_interval: Duration::from_millis(250),
    };
    match mgr.start(&params, no_logs) {
        Err(SidecarError::StartupTimeout(w)) => {
            assert_eq!(w.as_secs(), 1);
            assert_eq!(w.subsec_nanos(), 0);
        }
        _ => panic!("expected a timeout"),
    }
    assert_eq!(probe.calls.load(Ordering::SeqCst), 4);
    assert_eq!(sleeper.count.load(Ordering::SeqCst), 4);
}

#[test]
fn zero_attempts_still_probes_once() {
    let terminated = Arc::new(AtomicBool::new(false));
    let spawner = spawner(true, terminated.clone(), None);
    let probe = FakeProbe {
        ready_after: 999,
        calls: AtomicU32::new(0),
    };
    let sleeper = FakeSleeper {
        count: AtomicU32::new(0),
    };
    let mgr = SidecarManager {
        spawner: &spawner,
        probe: &probe,
        sleeper: &sleeper,
    };
    let c = cfg();
    let r = res();
    let params = StartParams {
        resources: &r,
        config: &c,
        max_attempts: 0,
        poll_interval: Duration::from_millis(7),
    };
    match mgr.start(&params, no_logs) {
        Err(SidecarError::StartupTimeout(w)) => assert_eq!(w.debug_text(), "7ms"),
        _ => panic!("expected a timeout"),
    }
    assert_eq!(probe.calls.load(Ordering::SeqCst), 1);
    assert!(terminated.load(Ordering::SeqCst));
}

#[test]
fn ready_wins_over_exit_in_the_same_round() {
    let terminated = Arc::new(AtomicBool::new(false));
    let spawner = spawner(false, terminated, Some(3));
    let probe = FakeProbe {
        ready_after: 1,
        calls: AtomicU32::new(0),
    };
    let sleeper = FakeSleeper {
        count: AtomicU32::new(0),
    };
    let mgr = SidecarManager {
        spawner: &spawner,
        probe: &probe,
        sleeper: &sleeper,
    };
    let c = cfg();
    let r = res();
    let params = StartParams {
        resources: &r,
        config: &c,
        max_attempts: 3,
        poll_interval: Duration::from_millis(1),
    };
    assert!(mgr.start(&params, no_logs).is_ok());
    assert_eq!(sleeper.count.load(Ordering::SeqCst), 0);
}

#[test]
fn start_hands_the_launch_environment_to_the_spawner() {
    let terminated = Arc::new(AtomicBool::new(false));
    let spawner = spawner(true, terminated, None);
    let probe = FakeProbe {
        ready_after: 1,
        calls: AtomicU32::new(0),
    };
    let sleeper = FakeSleeper {
        count: AtomicU32::new(0),
    };
    let mgr = SidecarManager {
        spawner: &spawner,
        probe: &probe,
        sleeper: &sleeper,
    };
    let c = cfg();
    let r = res();
    let params = StartParams {
        resources: &r,
        config: &c,
        max_attempts: 3,
        poll_interval: Duration::from_millis(1),
    };
    mgr.start(&params, no_logs).unwrap();
    assert_eq!(*spawner.seen_env.lock().unwrap(), kafka_console::config::build_env(&c));
    assert_eq!(*spawner.seen_stdio.lock().unwrap(), c.console_log());
}

#[test]
fn early_exit_shows_application_log_first() {
    let c = cfg();
    let mut files: HashMap<String, Vec<u8>> = HashMap::new();
    files.insert(c.log_file(), b"s1\ns2\nspring failed\n".to_vec());
    files.insert(c.console_log(), b"jvm said no\n".to_vec());
    let read = |p: &str| -> Vec<u8> { files.get(p).cloned().unwrap_or_default() };
    assert_eq!(diagnostic_tail(&c, &read), "s1\ns2\nspring failed");

    let mut files2: HashMap<String, Vec<u8>> = HashMap::new();
    files2.insert(c.log_file(), b"  \n\t\n".to_vec());
    files2.insert(c.console_log(), b"Error: module not found\n".to_vec());
    let read2 = |p: &str| -> Vec<u8> { files2.get(p).cloned().unwrap_or_default() };
    assert_eq!(diagnostic_tail(&c, &read2), "Error: module not found");

    let read3 = |_p: &str| -> Vec<u8> { Vec::new() };
    assert_eq!(diagnostic_tail(&c, &read3), "");
}

#[test]
fn early_exit_carries_the_diagnosis() {
    let c = cfg();
    let console = c.console_log();
    let terminated = Arc::new(AtomicBool::new(false));
    let spawner = spawner(false, terminated, None);
    let probe = FakeProbe {
        ready_after: 99,
        calls: AtomicU32::new(0),
    };
    let sleeper = FakeSleeper {
        count: AtomicU32::new(0),
    };
    let mgr = SidecarManager {
        spawner: &spawner,
        probe: &probe,
        sleeper: &sleeper,
    };
    let r = res();
    let params = StartParams {
        resources: &r,
        config: &c,
        max_attempts: 5,
        poll_interval: Duration::from_millis(1),
    };
    let read = |p: &str| -> Vec<u8> {
        if p == console {
            b"Unrecognized option\n".to_vec()
        } else {
            Vec::new()
        }
    };
    match mgr.start(&params, read) {
        Err(SidecarError::JvmExitedEarly { code, log_tail }) => {
            assert_eq!(code, None);
            assert_eq!(log_tail, "Unrecognized option");
        }
        _ => panic!("expected an early exit"),
    }
}

#[test]
fn log_window_caps_reads() {
    assert_eq!(log_window(10), 10);
    assert_eq!(log_window(65_536), 65_536);
    assert_eq!(log_window(1 << 40), 65_536);
}

#[test]
fn application_budget_is_sixty_seconds() {
    let total = startup_poll_interval()
        .checked_mul(STARTUP_MAX_ATTEMPTS)
        .unwrap();
    assert_eq!(total.as_secs(), 60);
    assert_eq!(total.debug_text(), "60s");
}

#[test]
fn poll_plan_counts_rounds_and_saturates_the_timeout() {
    let plan = poll_plan(40000, Duration::from_millis(7), 0);
    assert_eq!(plan.attempts, 1);
    assert_eq!(plan.timeout, Duration::from_millis(7));
    let plan = poll_plan(40000, Duration::from_millis(250), 4);
    assert_eq!(plan.attempts, 4);
    assert_eq!(plan.timeout, Duration::from_secs(1));
    let plan = poll_plan(1, Duration::max_value(), 2);
    assert_eq!(plan.timeout, Duration::max_value());
}

#[test]
fn poll_step_walks_a_round() {
    let plan = poll_plan(40000, Duration::from_millis(5), 2);
    let (s, a) = poll_begin(&plan);
    assert_eq!(a, PollAction::Probe(40000));
    let (s, a) = poll_step(&plan, s, PollEvent::Answered { ready: false });
    assert_eq!(a, PollAction::AskLiveness);
    let (s, a) = poll_step(&plan, s, PollEvent::Liveness { running: true });
    assert_eq!(a, PollAction::Pause(Duration::from_millis(5)));
    let (s, a) = poll_step(&plan, s, PollEvent::Paused);
    assert_eq!(a, PollAction::Probe(40000));
    assert_eq!(s, PollState { phase: PollPhase::Probing, round: 1 });
    let (s2, a2) = poll_step(&plan, s, PollEvent::Answered { ready: true });
    assert_eq!(a2, PollAction::ReportReady(40000));
    assert_eq!(s2.phase, PollPhase::Finished);
    let (s, a) = poll_step(&plan, s, PollEvent::Answered { ready: false });
    assert_eq!(a, PollAction::AskLiveness);
    let (s3, a3) = poll_step(&plan, s, PollEvent::Liveness { running: false });
    assert_eq!(a3, PollAction::ReportExited);
    assert_eq!(s3.phase, PollPhase::Finished);
    let (s, a) = poll_step(&plan, s, PollEvent::Liveness { running: true });
    assert_eq!(a, PollAction::Pause(Duration::from_millis(5)));
    let (s, a) = poll_step(&plan, s, PollEvent::Paused);
    assert_eq!(a, PollAction::Terminate);
    let (s, a) = poll_step(&plan, s, PollEvent::Terminated);
    assert_eq!(a, PollAction::ReportTimeout(Duration::from_millis(10)));
    assert_eq!(s.phase, PollPhase::Finished);
}

#[test]
fn poll_step_ignores_events_out_of_turn() {
    let plan = poll_plan(40000, Duration::from_millis(5), 3);
    let (s, _) = poll_begin(&plan);
    let (s2, a) = poll_step(&plan, s, PollEvent::Liveness { running: false });
    assert_eq!(a, PollAction::Ignore);
    assert_eq!(s2, s);
    let (s3, a) = poll_step(&plan, s, PollEvent::Paused);
    assert_eq!(a, PollAction::Ignore);
    assert_eq!(s3, s);
}

#[test]
fn launch_request_uses_console_log_and_env() {
    let req = launch_request(&res(), &cfg());
    assert_eq!(req.java_bin, "/x/java");
    assert_eq!(req.jar, "/x/a.jar");
    assert_eq!(req.stdio_log, cfg().console_log());
    assert_ne!(req.stdio_log, cfg().log_file());
    let expected: Vec<(String, String)> = kafka_console::config::build_env(&cfg());
    assert_eq!(req.env, expected);
}

#[test]
fn launch_error_is_handed_back() {
    let sleeper = FakeSleeper { count: AtomicU32::new(0) };
    let probe = FakeProbe { ready_after: 1, calls: AtomicU32::new(0) };
    let sp = spawner(true, Arc::new(AtomicBool::new(false)), None);
    let m = SidecarManager { spawner: &sp, probe: &probe, sleeper: &sleeper };
    let (r, c) = (res(), cfg());
    let p = StartParams { resources: &r, config: &c, max_attempts: 3, poll_interval: Duration::from_millis(1) };
    match m.after_launch(Err(SidecarError::Spawn("no java".to_string())), &p, no_logs) {
        Err(SidecarError::Spawn(why)) => assert_eq!(why, "no java"),
        _ => panic!("expected the launch error"),
    }
    assert_eq!(probe.calls.load(Ordering::SeqCst), 0);
    assert_eq!(sleeper.count.load(Ordering::SeqCst), 0);
}

#[test]
fn console_log_is_not_the_application_log() {
    let req = launch_request(&res(), &cfg());
    assert_ne!(req.stdio_log, cfg().log_file());
    assert!(req.stdio_log.ends_with("jvm.out.log"));
}
