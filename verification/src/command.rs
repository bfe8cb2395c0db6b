//! Platform process-control commands.
//!
//! The service is started through the platform's command interpreter
//! and stopped through the platform's forceful-termination command;
//! the two invocation strategies are selected once, by host operating
//! system.  This module builds the exact invocations; running them is
//! process I/O done by the surrounding application.

use crate::digits::{dec_spec, u32_to_string};
use vstd::prelude::*;

verus! {

/// A command for the application to run: a program, its arguments in
/// order, and optionally the directory to run it in.
#[derive(Clone, Debug)]
pub struct CommandPlan {
    pub program: String,
    pub args: Vec<String>,
    pub working_dir: Option<String>,
}

/// The invocation that starts the service: the platform's command
/// interpreter running `script` from the fixed script directory,
/// detached (`cmd /C` on Windows, `sh -c` elsewhere).
pub fn launch_plan(windows: bool, script: &str) -> (r: CommandPlan)
    ensures
        r.program@ == (if windows {
            "cmd"@
        } else {
            "sh"@
        }),
        r.args@.len() == 2,
        r.args@.index(0)@ == (if windows {
            "/C"@
        } else {
            "-c"@
        }),
        r.args@.index(1)@ == script@,
        r.working_dir matches Some(d) && d@ == "src/script"@,
{
    let program = if windows {
        String::from_str("cmd")
    } else {
        String::from_str("sh")
    };
    let flag = if windows {
        String::from_str("/C")
    } else {
        String::from_str("-c")
    };
    let mut args: Vec<String> = Vec::new();
    args.push(flag);
    args.push(String::from_str(script));
    CommandPlan { program, args, working_dir: Some(String::from_str("src/script")) }
}

/// The platform's forceful-termination command for `pid`:
/// `taskkill /PID <pid> /F` on Windows, `kill -TERM <pid>` elsewhere.
pub fn terminate_plan(windows: bool, pid: u32) -> (r: CommandPlan)
    ensures
        r.program@ == (if windows {
            "taskkill"@
        } else {
            "kill"@
        }),
        windows ==> r.args@.len() == 3 && r.args@.index(0)@ == "/PID"@ && r.args@.index(1)@
            == dec_spec(pid as nat) && r.args@.index(2)@ == "/F"@,
        !windows ==> r.args@.len() == 2 && r.args@.index(0)@ == "-TERM"@ && r.args@.index(1)@
            == dec_spec(pid as nat),
        r.working_dir is None,
{
    let pid_text = u32_to_string(pid);
    let mut args: Vec<String> = Vec::new();
    if windows {
        args.push(String::from_str("/PID"));
        args.push(pid_text);
        args.push(String::from_str("/F"));
        CommandPlan {
            program: String::from_str("taskkill"),
            args,
            working_dir: None,
        }
    } else {
        args.push(String::from_str("-TERM"));
        args.push(pid_text);
        CommandPlan { program: String::from_str("kill"), args, working_dir: None }
    }
}

} // verus!
