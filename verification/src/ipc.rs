//! Supervision of the overlay process: what follows from a spawn attempt,
//! and what one send of the configuration writes to the overlay's input.
//!
//! The process itself is started, written to and killed by the caller; here
//! it is known by its identifier.

use vstd::prelude::*;
use vstd::string::StringExecFns;
use crate::channel::{bytes_equal, copied_bytes, optional_bytes, terminated_line, NEWLINE};
use crate::platform::JobObject;

verus! {

/// The argument that starts the executable as the overlay.
pub const OVERLAY_ARGUMENT: &'static str = "overlay";

/// The two roles of the executable.
#[derive(Clone, Copy, Debug, PartialEq, Eq, Structural)]
pub enum Mode {
    Controller,
    Overlay,
}

/// Selects the role from the first command-line argument: the overlay when
/// it is `overlay`, the controller otherwise.
pub fn select_mode(argument: Option<&str>) -> (mode: Mode)
    ensures
        mode == match argument {
            Some(given) => if given@ == OVERLAY_ARGUMENT@ {
                Mode::Overlay
            } else {
                Mode::Controller
            },
            None => Mode::Controller,
        },
{
    match argument {
        Some(given) => {
            let given = String::from_str(given);
            let overlay = String::from_str(OVERLAY_ARGUMENT);
            if given == overlay {
                Mode::Overlay
            } else {
                Mode::Controller
            }
        },
        None => Mode::Controller,
    }
}

/// A running overlay process, known by its process identifier.
#[derive(Clone, Copy, Debug, PartialEq, Eq, Structural)]
pub struct ChildProcessHandle {
    pub pid: u32,
}

/// What a spawn attempt leaves: the overlay, if it started, and the kill
/// group that it is to join at once.
#[derive(Clone, Copy, Debug, PartialEq, Eq, Structural)]
pub struct Spawned {
    pub child: Option<ChildProcessHandle>,
    pub join: Option<JobObject>,
}

/// Takes the outcome of starting the overlay: the identifier of the new
/// process, or nothing when it did not start. A started overlay joins the
/// kill group if there is one. A failed start leaves no overlay and is not
/// an error.
pub fn spawn_overlay(job: &Option<JobObject>, started: Option<u32>) -> (spawned: Spawned)
    ensures
        spawned == match started {
            Some(pid) => Spawned { child: Some(ChildProcessHandle { pid }), join: *job },
            None => Spawned { child: None, join: None },
        },
{
    match started {
        Some(pid) => Spawned { child: Some(ChildProcessHandle { pid }), join: *job },
        None => Spawned { child: None, join: None },
    }
}

/// Sends the serialized configuration to the overlay unless it is, byte for
/// byte, the one remembered from the last send. Returns the line to write to
/// the overlay's input, if any.
///
/// A changed configuration is remembered whether or not an overlay runs;
/// it is written only to a running one.
pub fn send_config(
    child: &Option<ChildProcessHandle>,
    encoded: &[u8],
    prev_config: &mut Option<Vec<u8>>,
) -> (line: Option<Vec<u8>>)
    ensures
        optional_bytes(*final(prev_config)) == Some(encoded@),
        optional_bytes(line) == if child.is_some() && optional_bytes(*old(prev_config)) != Some(
            encoded@,
        ) {
            Some(encoded@.push(NEWLINE))
        } else {
            None
        },
{
    let unchanged = match prev_config {
        Some(previous) => bytes_equal(previous.as_slice(), encoded),
        None => false,
    };
    if unchanged {
        return None;
    }
    *prev_config = Some(copied_bytes(encoded));
    match child {
        Some(_) => Some(terminated_line(encoded)),
        None => None,
    }
}

/// Takes the outcome of writing a line to the overlay's input. A failed
/// write means that the overlay has died: it is given up.
pub fn write_finished(child: &mut Option<ChildProcessHandle>, succeeded: bool)
    ensures
        *final(child) == if succeeded {
            *old(child)
        } else {
            None
        },
{
    if !succeeded {
        *child = None;
    }
}

} // verus!
