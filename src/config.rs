//! Where the configuration lives, what failing to load it reports, and the
//! lines written to the log it names.
use vstd::prelude::*;
use vstd::string::StringExecFns;
use crate::error::ScmError;
use crate::text::{decimal_of, decimal_u64, decode_wide, utf16_encode};

verus! {

/// What the service is registered as, and where it logs (nowhere when empty).
#[derive(Debug, Clone)]
pub struct ServiceConfig {
    pub service_name: String,
    pub log_file_path: String,
}

impl ServiceConfig {
    pub fn new(service_name: String, log_file_path: String) -> (r: ServiceConfig)
        ensures
            r.service_name@ == service_name@,
            r.log_file_path@ == log_file_path@,
    {
        ServiceConfig { service_name, log_file_path }
    }

    /// The file that log lines go to: none when the configured path is empty.
    pub fn log_destination(&self) -> (r: Option<String>)
        ensures
            r is None <==> self.log_file_path@.len() == 0,
            r matches Some(p) ==> p@ == self.log_file_path@,
    {
        if self.log_file_path.as_str().is_empty() {
            None
        } else {
            Some(String::from_str(self.log_file_path.as_str()))
        }
    }
}

/// The configuration file that sits beside the module at `module_file`.
pub open spec fn config_path_spec(module_file: Seq<char>) -> Seq<char> {
    module_file + ".config.json"@
}

pub fn config_path(module_file: &str) -> (r: String)
    ensures
        r@ == config_path_spec(module_file@),
{
    let mut s = String::from_str(module_file);
    s.append(".config.json");
    s
}

/// The error when the loader cannot find the module that holds this code;
/// `last_error` is the native code read right after that call.
pub fn module_handle_error(last_error: u32) -> (r: ScmError)
    ensures
        r.msg@ == "GetModuleHandleExW error"@,
        r.code == last_error,
{
    ScmError::new(String::from_str("GetModuleHandleExW error"), last_error)
}

/// The path of the module, from the buffer that the loader filled with `len`
/// UTF-16 units; `last_error` is the native code read right after that call.
///
/// A length of zero, or one that fills the whole buffer (the path may have
/// been cut short), fails with `last_error`; units that are not UTF-16 fail
/// with code 1.
pub fn module_file_from_buffer(buf: &Vec<u16>, len: u32, last_error: u32) -> (r: Result<
    String,
    ScmError,
>)
    ensures
        !(0 < len && len < buf@.len()) ==> (r matches Err(e) && e.code == last_error && e.msg@
            == "GetModuleFileNameW error, returned length: ["@ + decimal_of(len as nat) + "]"@),
        0 < len && len < buf@.len() ==> match r {
            Ok(p) => utf16_encode(p@) == buf@.take(len as int),
            Err(e) => e.code == 1 && forall|s: Seq<char>| utf16_encode(s) != buf@.take(len as int)
                && exists|reason: Seq<char>| e.msg@ == "GetModuleFileNameW UTF-8 error, message: ["@
                + reason + "]"@,
        },
{
    if !(0 < len && (len as usize) < buf.len()) {
        let mut msg = String::from_str("GetModuleFileNameW error, returned length: [");
        msg.append(decimal_u64(len as u64).as_str());
        msg.append("]");
        return Err(ScmError::new(msg, last_error));
    }
    let mut units: Vec<u16> = Vec::new();
    let mut i: usize = 0;
    while i < len as usize
        invariant
            len < buf@.len(),
            i <= len,
            units@ == buf@.take(i as int),
        decreases len - i,
    {
        units.push(buf[i]);
        i = i + 1;
        proof {
            assert(units@ =~= buf@.take(i as int));
        }
    }
    match decode_wide(&units) {
        Ok(p) => Ok(p),
        Err(reason) => {
            let mut msg = String::from_str("GetModuleFileNameW UTF-8 error, message: [");
            msg.append(reason.as_str());
            msg.append("]");
            Err(ScmError::new(msg, 1))
        },
    }
}

/// The error for a configuration file at `path` that could not be read for
/// `reason`: its code is the OS error code, or 1 when there is none.
pub fn config_read_error(path: &str, reason: &str, os_code: Option<i32>) -> (r: ScmError)
    ensures
        r.msg@ == "Error reading config file, path: ["@ + path@ + "], message: ["@ + reason@
            + "]"@,
        r.code == match os_code {
            Some(c) => c as u32,
            None => 1u32,
        },
{
    let mut msg = String::from_str("Error reading config file, path: [");
    msg.append(path);
    msg.append("], message: [");
    msg.append(reason);
    msg.append("]");
    let code: u32 = match os_code {
        Some(c) => c as u32,
        None => 1,
    };
    ScmError::new(msg, code)
}

/// The error for a configuration file at `path` whose text does not hold the
/// two required fields, for `reason`.
pub fn config_parse_error(path: &str, reason: &str) -> (r: ScmError)
    ensures
        r.msg@ == "Error deserializing config file, path: ["@ + path@ + "], message: ["@
            + reason@ + "]"@,
        r.code == 1,
{
    let mut msg = String::from_str("Error deserializing config file, path: [");
    msg.append(path);
    msg.append("], message: [");
    msg.append(reason);
    msg.append("]");
    ScmError::new(msg, 1)
}

/// One log line: the timestamp, a space, the message, and CRLF.
pub open spec fn log_line_spec(timestamp: Seq<char>, msg: Seq<char>) -> Seq<char> {
    timestamp + " "@ + msg + "\r\n"@
}

pub fn log_line(timestamp: &str, msg: &str) -> (r: String)
    ensures
        r@ == log_line_spec(timestamp@, msg@),
{
    let mut s = String::from_str(timestamp);
    s.append(" ");
    s.append(msg);
    s.append("\r\n");
    s
}

/// A log line starts with its timestamp, holds the message after one space,
/// and ends with the one CRLF that closes it.
pub proof fn lemma_log_line_shape(timestamp: Seq<char>, msg: Seq<char>)
    ensures
        log_line_spec(timestamp, msg).len() == timestamp.len() + msg.len() + 3,
        log_line_spec(timestamp, msg).take(timestamp.len() as int) == timestamp,
        log_line_spec(timestamp, msg)[timestamp.len() as int] == ' ',
        log_line_spec(timestamp, msg).subrange(
            timestamp.len() + 1 as int,
            timestamp.len() + 1 + msg.len() as int,
        ) == msg,
        log_line_spec(timestamp, msg).skip(timestamp.len() + 1 + msg.len() as int) == seq!['\r', '\n'],
{
    reveal_strlit(" ");
    reveal_strlit("\r\n");
    let l = log_line_spec(timestamp, msg);
    assert(l.take(timestamp.len() as int) =~= timestamp);
    assert(l.subrange(timestamp.len() + 1 as int, timestamp.len() + 1 + msg.len() as int) =~= msg);
    assert(l.skip(timestamp.len() + 1 + msg.len() as int) =~= seq!['\r', '\n']);
}

} // verus!
