//! Service states, their native codes, and the status record submitted to the
//! supervisor.
use vstd::prelude::*;
use vstd::string::StringExecFns;
use crate::error::ScmError;
use crate::text::{decimal_of, decimal_u64};

verus! {

pub const SERVICE_STOPPED: u32 = 1;
pub const SERVICE_START_PENDING: u32 = 2;
pub const SERVICE_STOP_PENDING: u32 = 3;
pub const SERVICE_RUNNING: u32 = 4;

pub const SERVICE_WIN32_OWN_PROCESS: u32 = 0x10;
pub const SERVICE_ACCEPT_STOP: u32 = 1;
pub const SERVICE_ACCEPT_SHUTDOWN: u32 = 4;
pub const NO_ERROR: u32 = 0;

/// The lifecycle of a service, in the only order in which it is reported.
#[derive(Debug, Clone, Copy, PartialEq, Eq, Structural)]
pub enum ServiceState {
    StartPending,
    Running,
    StopPending,
    Stopped,
}

impl ServiceState {
    /// Position in the lifecycle: each state comes after those of lower rank.
    pub open spec fn rank(self) -> nat {
        match self {
            ServiceState::StartPending => 0,
            ServiceState::Running => 1,
            ServiceState::StopPending => 2,
            ServiceState::Stopped => 3,
        }
    }

    pub open spec fn code_spec(self) -> u32 {
        match self {
            ServiceState::StartPending => SERVICE_START_PENDING,
            ServiceState::Running => SERVICE_RUNNING,
            ServiceState::StopPending => SERVICE_STOP_PENDING,
            ServiceState::Stopped => SERVICE_STOPPED,
        }
    }

    /// A pending state asks the supervisor to watch progress checkpoints.
    pub open spec fn is_pending(self) -> bool {
        self == ServiceState::StartPending || self == ServiceState::StopPending
    }

    /// The supervisor's code for this state.
    pub fn code(&self) -> (r: u32)
        ensures
            r == self.code_spec(),
    {
        match self {
            ServiceState::StartPending => SERVICE_START_PENDING,
            ServiceState::Running => SERVICE_RUNNING,
            ServiceState::StopPending => SERVICE_STOP_PENDING,
            ServiceState::Stopped => SERVICE_STOPPED,
        }
    }

    /// The state that a supervisor code stands for, if any.
    pub fn from_code(code: u32) -> (r: Option<ServiceState>)
        ensures
            r matches Some(s) ==> s.code_spec() == code,
            r is None <==> !(SERVICE_STOPPED <= code <= SERVICE_RUNNING),
    {
        if code == SERVICE_START_PENDING {
            Some(ServiceState::StartPending)
        } else if code == SERVICE_RUNNING {
            Some(ServiceState::Running)
        } else if code == SERVICE_STOP_PENDING {
            Some(ServiceState::StopPending)
        } else if code == SERVICE_STOPPED {
            Some(ServiceState::Stopped)
        } else {
            None
        }
    }
}

/// The readable name of a supervisor state code; unknown codes in decimal.
pub open spec fn status_str_spec(status: u32) -> Seq<char> {
    if status == SERVICE_RUNNING {
        "SERVICE_RUNNING"@
    } else if status == SERVICE_START_PENDING {
        "SERVICE_START_PENDING"@
    } else if status == SERVICE_STOP_PENDING {
        "SERVICE_STOP_PENDING"@
    } else if status == SERVICE_STOPPED {
        "SERVICE_STOPPED"@
    } else {
        decimal_of(status as nat)
    }
}

pub fn status_str(status: u32) -> (r: String)
    ensures
        r@ == status_str_spec(status),
{
    if status == SERVICE_RUNNING {
        String::from_str("SERVICE_RUNNING")
    } else if status == SERVICE_START_PENDING {
        String::from_str("SERVICE_START_PENDING")
    } else if status == SERVICE_STOP_PENDING {
        String::from_str("SERVICE_STOP_PENDING")
    } else if status == SERVICE_STOPPED {
        String::from_str("SERVICE_STOPPED")
    } else {
        decimal_u64(status as u64)
    }
}

/// The status record handed to the supervisor, field for field.
#[derive(Debug, Clone, Copy, PartialEq, Eq, Structural)]
pub struct ServiceStatus {
    pub service_type: u32,
    pub current_state: u32,
    pub controls_accepted: u32,
    pub win32_exit_code: u32,
    pub service_specific_exit_code: u32,
    pub check_point: u32,
    pub wait_hint: u32,
}

/// The record that reports `state`: an own-process service accepting stop
/// and shutdown, without error, with a checkpoint only while pending.
pub open spec fn status_record_spec(state: ServiceState) -> ServiceStatus {
    ServiceStatus {
        service_type: SERVICE_WIN32_OWN_PROCESS,
        current_state: state.code_spec(),
        controls_accepted: SERVICE_ACCEPT_STOP | SERVICE_ACCEPT_SHUTDOWN,
        win32_exit_code: NO_ERROR,
        service_specific_exit_code: 0,
        check_point: if state.is_pending() { 1 } else { 0 },
        wait_hint: 0,
    }
}

pub fn status_record(state: ServiceState) -> (r: ServiceStatus)
    ensures
        r == status_record_spec(state),
{
    let check_point: u32 = match state {
        ServiceState::Running | ServiceState::Stopped => 0,
        _ => 1,
    };
    ServiceStatus {
        service_type: SERVICE_WIN32_OWN_PROCESS,
        current_state: state.code(),
        controls_accepted: SERVICE_ACCEPT_STOP | SERVICE_ACCEPT_SHUTDOWN,
        win32_exit_code: NO_ERROR,
        service_specific_exit_code: 0,
        check_point,
        wait_hint: 0,
    }
}

/// The message of a rejected status report.
pub open spec fn status_error_msg(state: ServiceState) -> Seq<char> {
    "SetServiceStatus error, status: ["@ + status_str_spec(state.code_spec()) + "]"@
}

/// The outcome of submitting the record of `state`: the supervisor's answer
/// `accepted` (non-zero), or else an error carrying `last_error`, the native
/// code read right after the rejected call.
pub fn status_report_result(state: ServiceState, accepted: i32, last_error: u32) -> (r: Result<
    (),
    ScmError,
>)
    ensures
        r is Ok <==> accepted != 0,
        r matches Err(e) ==> e.code == last_error && e.msg@ == status_error_msg(state),
{
    if accepted != 0 {
        Ok(())
    } else {
        let mut msg = String::from_str("SetServiceStatus error, status: [");
        msg.append(status_str(state.code()).as_str());
        msg.append("]");
        Err(ScmError::new(msg, last_error))
    }
}

} // verus!
