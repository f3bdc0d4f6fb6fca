//! The error value shared by the supervisor-facing operations.
use vstd::prelude::*;
use vstd::string::StringExecFns;
use crate::text::{decimal_of, decimal_u64};

verus! {

/// A failure reported by the service supervisor or met while preparing a
/// call to it: a description and the native error code.
#[derive(Debug, Clone)]
pub struct ScmError {
    pub msg: String,
    pub code: u32,
}

/// The one-line description of an error with message `msg` and code `code`.
pub open spec fn describe_spec(msg: Seq<char>, code: u32) -> Seq<char> {
    "WinSCM error, code: ["@ + decimal_of(code as nat) + "], message: ["@ + msg + "]"@
}

impl ScmError {
    pub fn new(msg: String, code: u32) -> (r: ScmError)
        ensures
            r.msg@ == msg@,
            r.code == code,
    {
        ScmError { msg, code }
    }

    /// The one-line description of this error, with its code and message.
    pub fn describe(&self) -> (r: String)
        ensures
            r@ == describe_spec(self.msg@, self.code),
    {
        let mut s = String::from_str("WinSCM error, code: [");
        s.append(decimal_u64(self.code as u64).as_str());
        s.append("], message: [");
        s.append(self.msg.as_str());
        s.append("]");
        s
    }
}

} // verus!
