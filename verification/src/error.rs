//! Why bringing up the backend failed.
use vstd::prelude::*;
use crate::text::{signed_decimal, signed_decimal_text};
use crate::time::Duration;

verus! {

/// The ways in which bringing up the backend fails.
#[derive(Debug)]
pub enum SidecarError {
    /// A bundled resource is missing or damaged; holds its path.
    ResourceNotFound(String),
    /// No loopback port could be had; holds the system's reason.
    PortAllocation(String),
    /// The per-user data directory cannot be determined or created.
    DataDirUnavailable,
    /// The JVM exited before it became ready; holds its exit code and the end of its log.
    JvmExitedEarly { code: Option<i32>, log_tail: String },
    /// The backend was not ready within the time allowed; holds that time.
    StartupTimeout(Duration),
    /// The JVM could not be launched; holds the system's reason.
    Spawn(String),
}

/// `Some(<code>)` or `None`, as `{:?}` shows an `Option<i32>`.
pub open spec fn exit_code_text(code: Option<i32>) -> Seq<char> {
    match code {
        Some(c) => seq!['S', 'o', 'm', 'e', '('] + signed_decimal(c as int) + seq![')'],
        None => seq!['N', 'o', 'n', 'e'],
    }
}

impl SidecarError {
    /// The message shown to the user for this error.
    pub open spec fn text(&self) -> Seq<char> {
        match self {
            SidecarError::ResourceNotFound(path) => "资源缺失或损坏: "@ + path@,
            SidecarError::PortAllocation(reason) => "端口分配失败: "@ + reason@,
            SidecarError::DataDirUnavailable => "用户数据目录不可用"@,
            SidecarError::JvmExitedEarly { code, log_tail } => "JVM 进程提前退出 (code="@
                + exit_code_text(*code) + ")\n日志末尾:\n"@ + log_tail@,
            SidecarError::StartupTimeout(waited) => "启动超时（"@ + waited.text() + "）"@,
            SidecarError::Spawn(reason) => "启动 JVM 失败: "@ + reason@,
        }
    }

    /// Renders the message shown to the user for this error.
    pub fn message(&self) -> (m: String)
        ensures
            m@ == self.text(),
    {
        match self {
            SidecarError::ResourceNotFound(path) => {
                let mut m = String::from_str("资源缺失或损坏: ");
                m.append(path.as_str());
                m
            },
            SidecarError::PortAllocation(reason) => {
                let mut m = String::from_str("端口分配失败: ");
                m.append(reason.as_str());
                m
            },
            SidecarError::DataDirUnavailable => String::from_str("用户数据目录不可用"),
            SidecarError::JvmExitedEarly { code, log_tail } => {
                let mut m = String::from_str("JVM 进程提前退出 (code=");
                let shown = exit_code_display(*code);
                m.append(shown.as_str());
                m.append(")\n日志末尾:\n");
                m.append(log_tail.as_str());
                m
            },
            SidecarError::StartupTimeout(waited) => {
                let mut m = String::from_str("启动超时（");
                let shown = waited.debug_text();
                m.append(shown.as_str());
                m.append("）");
                m
            },
            SidecarError::Spawn(reason) => {
                let mut m = String::from_str("启动 JVM 失败: ");
                m.append(reason.as_str());
                m
            },
        }
    }
}

/// Renders an exit code as `{:?}` shows an `Option<i32>`.
pub fn exit_code_display(code: Option<i32>) -> (s: String)
    ensures
        s@ == exit_code_text(code),
{
    proof {
        reveal_strlit("Some(");
        reveal_strlit(")");
        reveal_strlit("None");
    }
    match code {
        Some(c) => {
            let mut s = String::from_str("Some(");
            let digits = signed_decimal_text(c);
            s.append(digits.as_str());
            s.append(")");
            s
        },
        None => String::from_str("None"),
    }
}

} // verus!
