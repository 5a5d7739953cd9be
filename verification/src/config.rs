//! How the backend JVM is launched: its environment and the files it writes.
use vstd::prelude::*;
use crate::paths::{inside, join_path, path_joined, verbatim};
use crate::text::{decimal, decimal_text};

verus! {

/// What one launch of the backend needs.
#[derive(Debug, Clone)]
pub struct LaunchConfig {
    pub port: u16,
    pub config_file: String,
    pub log_dir: String,
    pub max_heap_mb: u32,
}

/// The application log the backend writes under `log_dir`.
pub open spec fn log_file_of(log_dir: Seq<char>) -> Seq<char> {
    path_joined(log_dir, "kafka-console.log"@)
}

/// Where the JVM's standard output and error go under `log_dir`.
pub open spec fn console_log_of(log_dir: Seq<char>) -> Seq<char> {
    path_joined(log_dir, "jvm.out.log"@)
}

/// The `JAVA_TOOL_OPTIONS` value: the heap limit and the module opening that JMX over SSL needs.
pub open spec fn java_tool_options(max_heap_mb: u32) -> Seq<char> {
    "-Xmx"@ + decimal(max_heap_mb as nat) + "m --add-opens=java.rmi/javax.rmi.ssl=ALL-UNNAMED"@
}

/// The environment handed to the JVM, in order.
pub open spec fn launch_env(port: u16, config_file: Seq<char>, log_dir: Seq<char>, max_heap_mb: u32) -> Seq<
    (Seq<char>, Seq<char>),
> {
    seq![
        ("SERVER_PORT"@, decimal(port as nat)),
        ("SERVER_ADDRESS"@, "127.0.0.1"@),
        ("DYNAMIC_CONFIG_ENABLED"@, "true"@),
        ("DYNAMIC_CONFIG_PATH"@, config_file),
        ("LOGGING_FILE_NAME"@, log_file_of(log_dir)),
        ("MANAGEMENT_ENDPOINT_HEALTH_ENABLED"@, "true"@),
        ("JAVA_TOOL_OPTIONS"@, java_tool_options(max_heap_mb)),
    ]
}

pub open spec fn env_view(env: Seq<(String, String)>) -> Seq<(Seq<char>, Seq<char>)> {
    env.map_values(|kv: (String, String)| (kv.0@, kv.1@))
}

impl LaunchConfig {
    pub open spec fn env(&self) -> Seq<(Seq<char>, Seq<char>)> {
        launch_env(self.port, self.config_file@, self.log_dir@, self.max_heap_mb)
    }

    /// The application log file under the log directory.
    pub fn log_file(&self) -> (f: String)
        ensures
            f@ == log_file_of(self.log_dir@),
            !verbatim(self.log_dir@) ==> inside(self.log_dir@, "kafka-console.log"@, f@),
    {
        proof {
            reveal_strlit("kafka-console.log");
            assert("kafka-console.log"@[0] != '.');
        }
        join_path(self.log_dir.as_str(), "kafka-console.log")
    }

    /// The file that receives the JVM's standard output and error, so that failures before
    /// the application log exists are kept.
    pub fn console_log(&self) -> (f: String)
        ensures
            f@ == console_log_of(self.log_dir@),
            !verbatim(self.log_dir@) ==> inside(self.log_dir@, "jvm.out.log"@, f@),
    {
        proof {
            reveal_strlit("jvm.out.log");
            assert("jvm.out.log"@[0] != '.');
        }
        join_path(self.log_dir.as_str(), "jvm.out.log")
    }
}

fn entry(key: &str, value: String) -> (kv: (String, String))
    ensures
        kv.0@ == key@,
        kv.1@ == value@,
{
    (String::from_str(key), value)
}

/// The environment for the JVM: the port it serves on, bound to loopback only, the dynamic
/// cluster configuration file, its log file, the health endpoint, and the heap limit. The log
/// file it names lies in the log directory.
pub fn build_env(cfg: &LaunchConfig) -> (env: Vec<(String, String)>)
    ensures
        env_view(env@) == cfg.env(),
        !verbatim(cfg.log_dir@) ==> inside(cfg.log_dir@, "kafka-console.log"@, log_file_of(cfg.log_dir@)),
{
    let mut env: Vec<(String, String)> = Vec::new();
    env.push(entry("SERVER_PORT", decimal_text(cfg.port as u64)));
    env.push(entry("SERVER_ADDRESS", String::from_str("127.0.0.1")));
    env.push(entry("DYNAMIC_CONFIG_ENABLED", String::from_str("true")));
    env.push(entry("DYNAMIC_CONFIG_PATH", cfg.config_file.clone()));
    env.push(entry("LOGGING_FILE_NAME", cfg.log_file()));
    env.push(entry("MANAGEMENT_ENDPOINT_HEALTH_ENABLED", String::from_str("true")));
    let mut options = String::from_str("-Xmx");
    let heap = decimal_text(cfg.max_heap_mb as u64);
    options.append(heap.as_str());
    options.append("m --add-opens=java.rmi/javax.rmi.ssl=ALL-UNNAMED");
    env.push(entry("JAVA_TOOL_OPTIONS", options));
    assert(env_view(env@) =~= cfg.env());
    env
}

/// The address of the backend's web interface.
pub open spec fn backend_url_text(port: u16) -> Seq<char> {
    "http://127.0.0.1:"@ + decimal(port as nat)
}

/// The backend's health endpoint.
pub open spec fn health_url_text(port: u16) -> Seq<char> {
    backend_url_text(port) + "/actuator/health"@
}

/// The address the main window loads: the backend on loopback.
pub fn backend_url(port: u16) -> (u: String)
    ensures
        u@ == backend_url_text(port),
{
    let mut u = String::from_str("http://127.0.0.1:");
    let digits = decimal_text(port as u64);
    u.append(digits.as_str());
    u
}

/// The health endpoint polled while the backend starts.
pub fn health_url(port: u16) -> (u: String)
    ensures
        u@ == health_url_text(port),
{
    let mut u = backend_url(port);
    u.append("/actuator/health");
    u
}

} // verus!
