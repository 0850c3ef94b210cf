//! How the platform's answers are read: status codes sorted into expected
//! absence and fatal failure, and default-device notifications filtered to
//! the output role that the monitor follows.
use vstd::prelude::*;
use crate::device::DeviceId;
use crate::monitor::AudioThreadCommand;
use crate::model::CommandView;

verus! {

/// Status code: success.
pub const S_OK: u32 = 0;

/// Status code: success, the subsystem was already initialized on this thread.
pub const S_FALSE: u32 = 1;

/// A status code with this bit set reports a failure.
pub const FAILURE_BIT: u32 = 0x8000_0000;

/// Status code of a lookup for a device that does not exist.
pub const E_NOT_FOUND: u32 = 0x8007_0490;

/// Status code of an activation on a device that was disconnected.
pub const E_DEVICE_INVALIDATED: u32 = 0x8889_0004;

/// Data flow of output (render) devices.
pub const FLOW_RENDER: i32 = 0;

/// The console role: the default role for general output.
pub const ROLE_CONSOLE: i32 = 0;

/// What initializing the audio subsystem on the monitor thread gave.
#[derive(Clone, Copy, Debug, PartialEq, Eq, Structural)]
pub enum SubsystemInit {
    /// Initialized by this call: it is released once, when the thread ends.
    Initialized,
    /// Already initialized on this thread: this call owes no release.
    AlreadyInitialized,
    /// Any other failure: the monitor thread cannot start.
    Failed,
}

pub open spec fn init_outcome(code: u32) -> SubsystemInit {
    if code == S_FALSE {
        SubsystemInit::AlreadyInitialized
    } else if code >= FAILURE_BIT {
        SubsystemInit::Failed
    } else {
        SubsystemInit::Initialized
    }
}

/// Sorts the status code of the subsystem initialization.
pub fn classify_init(code: u32) -> (r: SubsystemInit)
    ensures
        r == init_outcome(code),
        r == SubsystemInit::Initialized <==> code < FAILURE_BIT && code != S_FALSE,
{
    if code == S_FALSE {
        SubsystemInit::AlreadyInitialized
    } else if code >= FAILURE_BIT {
        SubsystemInit::Failed
    } else {
        SubsystemInit::Initialized
    }
}

/// Whether the initialization leaves a release owed by the monitor thread.
pub fn release_owed(outcome: SubsystemInit) -> (r: bool)
    ensures
        r == (outcome == SubsystemInit::Initialized),
{
    match outcome {
        SubsystemInit::Initialized => true,
        _ => false,
    }
}

/// Why a device could not be had.
#[derive(Clone, Copy, Debug, PartialEq, Eq, Structural)]
pub enum DeviceFailure {
    /// No device matches: an expected absence.
    NotFound,
    /// The device existed but can no longer be activated: an expected absence.
    Invalidated,
    /// Anything else: a broken platform contract, fatal to the monitor thread.
    Fatal,
}

/// Sorts the failure of a device lookup, by identity or for the default.
pub fn classify_lookup_failure(code: u32) -> (r: DeviceFailure)
    ensures
        r == (if code == E_NOT_FOUND {
            DeviceFailure::NotFound
        } else {
            DeviceFailure::Fatal
        }),
{
    if code == E_NOT_FOUND {
        DeviceFailure::NotFound
    } else {
        DeviceFailure::Fatal
    }
}

/// Sorts the failure of activating a device's volume control.
pub fn classify_activation_failure(code: u32) -> (r: DeviceFailure)
    ensures
        r == (if code == E_DEVICE_INVALIDATED {
            DeviceFailure::Invalidated
        } else {
            DeviceFailure::Fatal
        }),
{
    if code == E_DEVICE_INVALIDATED {
        DeviceFailure::Invalidated
    } else {
        DeviceFailure::Fatal
    }
}

/// Whether a failure means only that no device is there.
pub fn is_absence(failure: DeviceFailure) -> (r: bool)
    ensures
        r == (failure != DeviceFailure::Fatal),
{
    match failure {
        DeviceFailure::Fatal => false,
        _ => true,
    }
}

/// The command for a default-device-changed notification: a new default
/// for the console role of output devices, nothing for any other flow or
/// role.
pub fn default_change_command(flow: i32, role: i32, id: DeviceId) -> (r: Option<AudioThreadCommand>)
    ensures
        r is Some <==> (flow == FLOW_RENDER && role == ROLE_CONSOLE),
        r is Some ==> r->0@ == CommandView::NewDefault(id@),
{
    if flow == FLOW_RENDER && role == ROLE_CONSOLE {
        Some(AudioThreadCommand::NewDefault(id))
    } else {
        None
    }
}

} // verus!
