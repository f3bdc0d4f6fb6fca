//! The dispatcher run: the service name in the supervisor's wide encoding,
//! the outcome of the blocking dispatch call, and what the entry point
//! returns and logs for it.
use vstd::prelude::*;
use vstd::string::StringExecFns;
use crate::config::ServiceConfig;
use crate::error::ScmError;
use crate::text::{decimal_of, decimal_u64, encode_wide_with_nul, has_interior_nul, utf16_with_nul};

verus! {

/// Exit code of the entry point when the configuration cannot be loaded.
pub const EXIT_CONFIG_FAILURE: i32 = -1;
/// Exit code after the dispatcher ran to completion.
pub const EXIT_DISPATCH_COMPLETE: i32 = 0;
/// Exit code after the dispatch call failed.
pub const EXIT_DISPATCH_FAILED: i32 = 1;

/// The entry point's decision once it has tried to load the configuration:
/// stop with `EXIT_CONFIG_FAILURE`, before anything is logged, when loading
/// failed, and go on (`None`) otherwise.
pub fn config_failure_exit(loaded: &Result<ServiceConfig, ScmError>) -> (r: Option<i32>)
    ensures
        r is None <==> loaded is Ok,
        r matches Some(c) ==> c == EXIT_CONFIG_FAILURE,
{
    match loaded {
        Ok(_) => None,
        Err(_) => Some(EXIT_CONFIG_FAILURE),
    }
}

/// The service name as nul-terminated UTF-16, for the service table. A name
/// holding a nul character before its end cannot be encoded and fails with
/// code 1; a nul at its very end serves as the terminator.
pub fn widen_service_name(name: &str) -> (r: Result<Vec<u16>, ScmError>)
    ensures
        r is Err <==> has_interior_nul(name@),
        r matches Ok(v) ==> v@ == utf16_with_nul(name@),
        r matches Err(e) ==> e.code == 1 && e.msg@ == "Name widen error, value: ["@ + name@
            + "]"@,
{
    match encode_wide_with_nul(name) {
        Some(v) => Ok(v),
        None => {
            let mut msg = String::from_str("Name widen error, value: [");
            msg.append(name);
            msg.append("]");
            Err(ScmError::new(msg, 1))
        },
    }
}

/// The log message written before the dispatcher is called.
pub fn dispatch_start_message(name: &str) -> (r: String)
    ensures
        r@ == "Is due to call SCM dispatcher, service name: ["@ + name@ + "]"@,
{
    let mut msg = String::from_str("Is due to call SCM dispatcher, service name: [");
    msg.append(name);
    msg.append("]");
    msg
}

/// The outcome of the blocking dispatch call for service `name`: its answer
/// `returned` (non-zero on success), else an error with `last_error`, the
/// native code read right after the call.
pub fn dispatch_result(name: &str, returned: i32, last_error: u32) -> (r: Result<(), ScmError>)
    ensures
        r is Ok <==> returned != 0,
        r matches Err(e) ==> e.code == last_error && e.msg@
            == "StartServiceCtrlDispatcherW error, name: ["@ + name@ + "]"@,
{
    if returned != 0 {
        Ok(())
    } else {
        let mut msg = String::from_str("StartServiceCtrlDispatcherW error, name: [");
        msg.append(name);
        msg.append("]");
        Err(ScmError::new(msg, last_error))
    }
}

/// What the entry point returns and logs once the dispatcher has returned.
pub struct DispatchReport {
    pub exit_code: i32,
    pub log_message: String,
}

pub open spec fn dispatch_error_message(e: ScmError) -> Seq<char> {
    "SCM dispatcher error, code: ["@ + decimal_of(e.code as nat) + "], message: ["@ + e.msg@
        + "]"@
}

/// Success exits with 0 and logs that the run is complete; failure exits
/// with 1 and logs the native code and message.
pub fn dispatch_report(outcome: &Result<(), ScmError>) -> (r: DispatchReport)
    ensures
        outcome is Ok ==> r.exit_code == EXIT_DISPATCH_COMPLETE && r.log_message@
            == "SCM dispatcher run complete, service is stopping now"@,
        outcome matches Err(e) ==> r.exit_code == EXIT_DISPATCH_FAILED && r.log_message@
            == dispatch_error_message(*e),
{
    match outcome {
        Ok(()) => DispatchReport {
            exit_code: EXIT_DISPATCH_COMPLETE,
            log_message: String::from_str("SCM dispatcher run complete, service is stopping now"),
        },
        Err(e) => {
            let mut msg = String::from_str("SCM dispatcher error, code: [");
            msg.append(decimal_u64(e.code as u64).as_str());
            msg.append("], message: [");
            msg.append(e.msg.as_str());
            msg.append("]");
            DispatchReport { exit_code: EXIT_DISPATCH_FAILED, log_message: msg }
        },
    }
}

} // verus!
