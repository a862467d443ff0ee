//! Start on boot: the steps that register or unregister the application in
//! the Windows `Run` registry key, decided from each step's outcome. The
//! caller performs each step and reports how it went.

use crate::capture::join3;
use crate::utf16::{encode_utf16, wide_null};
use vstd::prelude::*;

verus! {

/// Registry key, under the current user, of programs started at log-in.
pub const RUN_KEY: &'static str = "Software\\Microsoft\\Windows\\CurrentVersion\\Run";

/// Name of the application's value in the `Run` key.
pub const RUN_VALUE_NAME: &'static str = "Clip Studio Presence";

/// Windows status code of a call that succeeded.
pub const ERROR_SUCCESS: u32 = 0;

/// Windows status code of a value that does not exist.
pub const ERROR_FILE_NOT_FOUND: u32 = 2;

/// Why start on boot could not be changed.
#[derive(Debug, PartialEq, Eq)]
pub enum StartupError {
    /// The application's executable path could not be found; holds the
    /// text of the I/O error.
    CurrentExe(String),
    /// A registry call failed with this status code.
    Registry(u32),
    /// Start on boot is only implemented on Windows.
    UnsupportedPlatform,
}

/// The outcome of a step.
#[derive(Debug)]
pub enum RegistryEvent {
    /// The `Run` key was opened (or created), with this status.
    KeyOpened(u32),
    /// The executable's path, as displayed text, or the I/O error's text.
    ExecutableResolved(Result<String, String>),
    /// The application's value was written, with this status.
    ValueWritten(u32),
    /// The application's value was deleted, with this status.
    ValueDeleted(u32),
}

/// The next step.
#[derive(Debug)]
pub enum RegistryAction {
    /// Open or create the key at this nul-terminated wide path under the
    /// current user, for setting values.
    OpenRunKey { path: Vec<u16> },
    /// Find the path of the running executable.
    ResolveExecutable,
    /// Write a string value: its nul-terminated wide name, its
    /// nul-terminated wide data, and the data's size in bytes.
    WriteRunValue { name: Vec<u16>, data: Vec<u16>, byte_len: u32 },
    /// Delete the value with this nul-terminated wide name.
    DeleteRunValue { name: Vec<u16> },
    /// Close the opened key, then finish with this result.
    CloseKeyAndFinish(Result<(), StartupError>),
    /// Finish with this result; no key is open or it is left as it is.
    Finish(Result<(), StartupError>),
}

/// The registry data that starts the application: its path in quotes.
pub open spec fn run_command_spec(exe_path: Seq<char>) -> Seq<char> {
    "\""@ + exe_path + "\""@
}

/// The step ends the run with a registry error of `status`, closing the
/// key first or not.
pub open spec fn fails_with_status(a: RegistryAction, status: u32, close: bool) -> bool {
    match a {
        RegistryAction::CloseKeyAndFinish(Err(StartupError::Registry(s))) => close && s == status,
        RegistryAction::Finish(Err(StartupError::Registry(s))) => !close && s == status,
        _ => false,
    }
}

/// The step closes the key and ends the run successfully.
pub open spec fn closes_with_success(a: RegistryAction) -> bool {
    a matches RegistryAction::CloseKeyAndFinish(Ok(()))
}

/// What `startup_next_step` does for each outcome.
pub open spec fn next_step_matches(enabled: bool, event: RegistryEvent, res: RegistryAction) -> bool {
    match event {
        RegistryEvent::KeyOpened(status) => if status != ERROR_SUCCESS {
            fails_with_status(res, status, false)
        } else if enabled {
            res is ResolveExecutable
        } else {
            res matches RegistryAction::DeleteRunValue { name } && name@ == encode_utf16(
                RUN_VALUE_NAME@,
            ).push(0)
        },
        RegistryEvent::ExecutableResolved(Err(e)) => res matches RegistryAction::Finish(
            Err(StartupError::CurrentExe(m)),
        ) && m == e,
        RegistryEvent::ExecutableResolved(Ok(p)) => match res {
            RegistryAction::WriteRunValue { name, data, byte_len } => {
                &&& name@ == encode_utf16(RUN_VALUE_NAME@).push(0)
                &&& data@ == encode_utf16(run_command_spec(p@)).push(0)
                &&& byte_len == (data@.len() * 2) as u32
            },
            _ => false,
        },
        RegistryEvent::ValueWritten(status) => if status == ERROR_SUCCESS {
            closes_with_success(res)
        } else {
            fails_with_status(res, status, true)
        },
        RegistryEvent::ValueDeleted(status) => if status == ERROR_SUCCESS || status
            == ERROR_FILE_NOT_FOUND {
            closes_with_success(res)
        } else {
            fails_with_status(res, status, true)
        },
    }
}

/// The first step: open the `Run` key.
pub fn startup_first_step() -> (res: RegistryAction)
    ensures
        res matches RegistryAction::OpenRunKey { path } && path@ == encode_utf16(RUN_KEY@).push(0),
{
    RegistryAction::OpenRunKey { path: wide_null(RUN_KEY) }
}

/// The step after `event` when start on boot is being turned on
/// (`enabled`) or off. A key that failed to open ends the run with its
/// status. Turning on resolves the executable and writes its quoted path;
/// a path that cannot be resolved ends the run without closing the key.
/// Turning off deletes the value; a value that does not exist counts as
/// deleted. After a write or a delete the key is closed and the run ends.
pub fn startup_next_step(enabled: bool, event: RegistryEvent) -> (res: RegistryAction)
    requires
        event matches RegistryEvent::ExecutableResolved(Ok(p)) ==> p@.len() + 3 <= usize::MAX / 4,
    ensures
        next_step_matches(enabled, event, res),
{
    match event {
        RegistryEvent::KeyOpened(status) => {
            if status != ERROR_SUCCESS {
                RegistryAction::Finish(Err(StartupError::Registry(status)))
            } else if enabled {
                RegistryAction::ResolveExecutable
            } else {
                RegistryAction::DeleteRunValue { name: wide_null(RUN_VALUE_NAME) }
            }
        },
        RegistryEvent::ExecutableResolved(Err(e)) => RegistryAction::Finish(
            Err(StartupError::CurrentExe(e)),
        ),
        RegistryEvent::ExecutableResolved(Ok(path)) => {
            let command = join3("\"", path.as_str(), "\"");
            let data = wide_null(command.as_str());
            proof {
                reveal_strlit("\"");
                lemma_encode_utf16_len(command@);
            }
            let bytes = data.len() * 2;
            RegistryAction::WriteRunValue {
                name: wide_null(RUN_VALUE_NAME),
                data,
                byte_len: #[verifier::truncate] (bytes as u32),
            }
        },
        RegistryEvent::ValueWritten(status) => {
            if status == ERROR_SUCCESS {
                RegistryAction::CloseKeyAndFinish(Ok(()))
            } else {
                RegistryAction::CloseKeyAndFinish(Err(StartupError::Registry(status)))
            }
        },
        RegistryEvent::ValueDeleted(status) => {
            if status == ERROR_SUCCESS || status == ERROR_FILE_NOT_FOUND {
                RegistryAction::CloseKeyAndFinish(Ok(()))
            } else {
                RegistryAction::CloseKeyAndFinish(Err(StartupError::Registry(status)))
            }
        },
    }
}

/// The UTF-16 encoding of a text takes at most two code units per
/// character.
pub proof fn lemma_encode_utf16_len(s: Seq<char>)
    ensures
        encode_utf16(s).len() <= 2 * s.len(),
    decreases s.len(),
{
    if s.len() > 0 {
        lemma_encode_utf16_len(s.drop_first());
    }
}

} // verus!
