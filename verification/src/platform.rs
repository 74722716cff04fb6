//! What the daemon does differently on each operating system: checking for
//! a display at start, keeping one daemon running through a lock file, and
//! handing focus back after a paste.

use vstd::prelude::*;
use crate::pid::{lock_file_contents, lock_pid, parse_pid};
use crate::text::decimal;

verus! {

/// The operating system the program runs on.
#[derive(Clone, Copy, Debug, PartialEq, Eq, Structural)]
pub enum Platform {
    MacOs,
    Linux,
    Other,
}

/// What the program sets up at start.
#[derive(Clone, Copy, Debug, PartialEq, Eq, Structural)]
pub enum InitStep {
    /// macOS: run as an accessory application (no Dock icon) and ask for
    /// the Accessibility permission if it is not granted.
    MacAccessory,
    /// Linux under Wayland.
    Wayland,
    /// Linux under X11.
    X11,
    /// Nothing to set up.
    Nothing,
}

/// Why the program cannot start.
#[derive(Clone, Copy, Debug, PartialEq, Eq, Structural)]
pub enum PlatformError {
    /// On Linux, neither `WAYLAND_DISPLAY` nor `DISPLAY` is set.
    NoDisplayServer,
}

/// The set-up for `platform`, where `wayland` and `x11` say whether
/// `WAYLAND_DISPLAY` and `DISPLAY` are set: on Linux, Wayland comes first,
/// and without either display the program cannot start.
pub open spec fn init_result(platform: Platform, wayland: bool, x11: bool) -> Result<InitStep, PlatformError> {
    match platform {
        Platform::MacOs => Ok(InitStep::MacAccessory),
        Platform::Linux => if wayland {
            Ok(InitStep::Wayland)
        } else if x11 {
            Ok(InitStep::X11)
        } else {
            Err(PlatformError::NoDisplayServer)
        },
        Platform::Other => Ok(InitStep::Nothing),
    }
}

/// Decides what to set up at start on `platform`.
pub fn init(platform: Platform, wayland: bool, x11: bool) -> (r: Result<InitStep, PlatformError>)
    ensures
        r == init_result(platform, wayland, x11),
{
    match platform {
        Platform::MacOs => Ok(InitStep::MacAccessory),
        Platform::Linux => {
            if wayland {
                Ok(InitStep::Wayland)
            } else if x11 {
                Ok(InitStep::X11)
            } else {
                Err(PlatformError::NoDisplayServer)
            }
        },
        Platform::Other => Ok(InitStep::Nothing),
    }
}

/// What was found where the daemon's lock file belongs.
#[derive(Debug)]
pub enum LockFile {
    /// No lock file.
    Absent,
    /// A lock file that could not be read as text.
    Unreadable,
    /// A lock file holding this text.
    Holds(String),
}

/// How a starting daemon takes over the single-instance lock.
#[derive(Debug)]
pub struct LockPlan {
    /// The process that the old lock file names, to be terminated if it
    /// still runs.
    pub stale_pid: Option<u32>,
    /// Whether to remove the old lock file.
    pub remove_existing: bool,
    /// The text to write into the lock file, where one is kept.
    pub write: Option<String>,
}

/// Decides how the daemon with process id `current_pid` takes the
/// single-instance lock on `platform`, given what lies where the lock file
/// belongs. Only macOS keeps a lock file: a readable old one is removed
/// after the process it names (if it names one) is terminated, and the new
/// one holds `current_pid`. The daemon holds the lock afterwards in every
/// case.
pub fn acquire_single_instance(platform: Platform, lock: &LockFile, current_pid: u32) -> (plan: LockPlan)
    ensures
        platform == Platform::MacOs ==> {
            &&& plan.write matches Some(s) && s@ == decimal(current_pid as nat)
            &&& match lock {
                LockFile::Holds(s) => plan.stale_pid == lock_pid(s@) && plan.remove_existing,
                _ => plan.stale_pid is None && !plan.remove_existing,
            }
        },
        platform != Platform::MacOs ==> plan.stale_pid is None && !plan.remove_existing
            && plan.write is None,
{
    match platform {
        Platform::MacOs => {
            let write = Some(lock_file_contents(current_pid));
            match lock {
                LockFile::Holds(s) => LockPlan {
                    stale_pid: parse_pid(s.as_str()),
                    remove_existing: true,
                    write,
                },
                _ => LockPlan { stale_pid: None, remove_existing: false, write },
            }
        },
        _ => LockPlan { stale_pid: None, remove_existing: false, write: None },
    }
}

/// Whether a stopping daemon removes its lock file on `platform`: only
/// macOS keeps one.
pub fn release_single_instance(platform: Platform) -> (remove: bool)
    ensures
        remove == (platform == Platform::MacOs),
{
    match platform {
        Platform::MacOs => true,
        _ => false,
    }
}

/// Whether, after a paste, the application hides and deactivates itself so
/// that focus goes back to the application before it: on macOS only.
pub fn deactivate_app(platform: Platform) -> (deactivate: bool)
    ensures
        deactivate == (platform == Platform::MacOs),
{
    match platform {
        Platform::MacOs => true,
        _ => false,
    }
}

} // verus!
