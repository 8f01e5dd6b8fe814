//! Driving a virtual machine of UTM through AppleScript: the scripts that
//! are run, and what their results mean.

use vstd::prelude::*;
use crate::dns::IpAddress;

verus! {

/// Starts the machine without keeping what it writes to its disk.
pub const START_DISPOSABLE_VM: &'static str = "start vm without saving";

/// Asks for the path of the first serial port of the machine.
pub const GET_PTY_PATH: &'static str = "get address of first serial port of vm";

/// Stops the machine, as it is done when its handle is dropped.
pub const STOP_VM_BY_FORCE: &'static str =
    "tell application \"UTM\"\n    stop vm by force\n    end tell";

/// The status of a machine that runs.
pub const STATUS_STARTED: &'static str = "started";

/// The status of a machine that has stopped.
pub const STATUS_NOT_STARTED: &'static str = "not started";

/// The address that every guest is given: 192.168.64.2.
pub fn get_guest_ip() -> (address: IpAddress)
    ensures
        address == IpAddress::V4([192u8, 168u8, 64u8, 2u8]),
{
    IpAddress::V4([192, 168, 64, 2])
}

/// The program that runs `script` on the machine named `machine`.
pub open spec fn osascript_source(machine: Seq<char>, script: Seq<char>) -> Seq<char> {
    "tell application \"UTM\"\n    set vm to virtual machine named \""@ + machine + "\"\n    "@
        + script + "\nend tell"@
}

/// Writes the program that runs `script` on the machine named `machine`.
pub fn osascript_program(machine: &str, script: &str) -> (program: String)
    ensures
        program@ == osascript_source(machine@, script@),
{
    let mut program = String::from_str(
        "tell application \"UTM\"\n    set vm to virtual machine named \"",
    );
    program.append(machine);
    program.append("\"\n    ");
    program.append(script);
    program.append("\nend tell");
    program
}

/// The script that waits until the machine has the status `status`, and
/// then asks for it.
pub open spec fn wait_for_status_source(status: Seq<char>) -> Seq<char> {
    "repeat\n    if status of vm is "@ + status
        + " then exit repeat\n    delay 1\nend repeat\nget status of vm"@
}

/// Writes the script that waits until the machine has the status `status`.
pub fn wait_for_status_script(status: &str) -> (script: String)
    ensures
        script@ == wait_for_status_source(status@),
{
    let mut script = String::from_str("repeat\n    if status of vm is ");
    script.append(status);
    script.append(" then exit repeat\n    delay 1\nend repeat\nget status of vm");
    script
}

/// Why a script gave no result.
#[derive(Debug, PartialEq, Eq)]
pub enum ScriptError {
    /// The interpreter failed and said this on its error output.
    Failed { stderr: String },
    /// The interpreter failed, and its error output is no UTF-8.
    InvalidErrorOutput,
    /// The interpreter succeeded, and its output is no UTF-8.
    InvalidOutput,
}

/// What a run of the interpreter comes to. `None` stands for output that
/// is no UTF-8.
pub open spec fn script_outcome(
    succeeded: bool,
    stdout: Option<String>,
    stderr: Option<String>,
) -> Result<String, ScriptError> {
    if !succeeded {
        match stderr {
            Some(text) => Err(ScriptError::Failed { stderr: text }),
            None => Err(ScriptError::InvalidErrorOutput),
        }
    } else {
        match stdout {
            Some(text) => Ok(text),
            None => Err(ScriptError::InvalidOutput),
        }
    }
}

/// Reads the result of a run of the interpreter: its output where it
/// succeeded, its error output where it failed.
pub fn osascript_result(succeeded: bool, stdout: Option<String>, stderr: Option<String>) -> (result:
    Result<String, ScriptError>)
    ensures
        result == script_outcome(succeeded, stdout, stderr),
{
    if !succeeded {
        match stderr {
            Some(text) => Err(ScriptError::Failed { stderr: text }),
            None => Err(ScriptError::InvalidErrorOutput),
        }
    } else {
        match stdout {
            Some(text) => Ok(text),
            None => Err(ScriptError::InvalidOutput),
        }
    }
}

} // verus!
