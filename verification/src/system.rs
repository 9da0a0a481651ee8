//! The operating-system actions the countdown can end with: lock the
//! workstation, hibernate, or shut down. This module decides which action a
//! name stands for and how failures are reported; the application runs the
//! system commands.

use vstd::prelude::*;
use crate::text;

verus! {

broadcast use vstd::string::group_string_axioms;

/// An end-of-countdown system action.
#[derive(Debug, Clone, Copy, PartialEq, Eq, Structural)]
pub enum SystemAction {
    /// Lock the workstation.
    Lock,
    /// Hibernate (needs administrator rights).
    Suspend,
    /// Shut down at once, closing applications (needs administrator rights).
    Shutdown,
}

/// The action a name stands for: `"lock"`, `"suspend"` or `"shutdown"`.
pub open spec fn spec_system_action(action: Seq<char>) -> Option<SystemAction> {
    if action == "lock"@ {
        Some(SystemAction::Lock)
    } else if action == "suspend"@ {
        Some(SystemAction::Suspend)
    } else if action == "shutdown"@ {
        Some(SystemAction::Shutdown)
    } else {
        None
    }
}

/// The error for a name that stands for no action.
pub open spec fn spec_unknown_action_message(action: Seq<char>) -> Seq<char> {
    "未知的操作类型: "@ + action
}

/// The action requested from the front end, or the error for an unknown
/// name. The application then carries the action out.
pub fn execute_system_action(action: &str) -> (r: Result<SystemAction, String>)
    ensures
        match spec_system_action(action@) {
            Some(a) => r == Ok::<SystemAction, String>(a),
            None => r matches Err(e) && e@ == spec_unknown_action_message(action@),
        },
{
    if text::str_eq(action, "lock") {
        Ok(SystemAction::Lock)
    } else if text::str_eq(action, "suspend") {
        Ok(SystemAction::Suspend)
    } else if text::str_eq(action, "shutdown") {
        Ok(SystemAction::Shutdown)
    } else {
        Err(text::concat2("未知的操作类型: ", action))
    }
}

/// The action configured for the end of a countdown, or the message to
/// report for an unknown name (nothing is carried out then).
pub fn execute_action(action_type: &str) -> (r: Result<SystemAction, String>)
    ensures
        match spec_system_action(action_type@) {
            Some(a) => r == Ok::<SystemAction, String>(a),
            None => r matches Err(e) && e@ == spec_unknown_action_message(action_type@),
        },
{
    execute_system_action(action_type)
}

/// The error reported when hibernating or shutting down failed with
/// `detail` (locking reports no failure).
pub open spec fn spec_failure_message(action: SystemAction, detail: Seq<char>) -> Seq<char> {
    match action {
        SystemAction::Suspend => "休眠失败: "@ + detail + "。请确保以管理员权限运行"@,
        SystemAction::Shutdown => "关机失败: "@ + detail + "。请确保以管理员权限运行"@,
        SystemAction::Lock => ""@,
    }
}

/// The error reported when a system command for `action` failed.
pub fn failure_message(action: SystemAction, detail: &str) -> (r: String)
    requires
        action != SystemAction::Lock,
    ensures
        r@ == spec_failure_message(action, detail@),
{
    match action {
        SystemAction::Suspend => text::concat3("休眠失败: ", detail, "。请确保以管理员权限运行"),
        SystemAction::Shutdown => text::concat3("关机失败: ", detail, "。请确保以管理员权限运行"),
        SystemAction::Lock => String::new(),
    }
}

/// The error reported when hibernating or shutting down is asked on a
/// platform other than Windows.
pub open spec fn spec_unsupported_message(action: SystemAction) -> Seq<char> {
    match action {
        SystemAction::Suspend => "休眠功能仅支持 Windows"@,
        SystemAction::Shutdown => "关机功能仅支持 Windows"@,
        SystemAction::Lock => ""@,
    }
}

/// The error for an action this platform cannot carry out.
pub fn unsupported_message(action: SystemAction) -> (r: String)
    requires
        action != SystemAction::Lock,
    ensures
        r@ == spec_unsupported_message(action),
{
    match action {
        SystemAction::Suspend => "休眠功能仅支持 Windows".to_string(),
        SystemAction::Shutdown => "关机功能仅支持 Windows".to_string(),
        SystemAction::Lock => String::new(),
    }
}

/// The message of a system command that exited unsuccessfully.
pub fn command_failed_message(stderr: &str) -> (r: String)
    ensures
        r@ == "命令执行失败: "@ + stderr@,
{
    text::concat2("命令执行失败: ", stderr)
}

} // verus!
