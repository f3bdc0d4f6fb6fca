use osservice::config::{module_file_from_buffer, module_handle_error};
use osservice::dispatch::widen_service_name;
use osservice::error::ScmError;
use osservice::text::{decimal_i64, decimal_u64};

#[test]
fn decimals() {
    assert_eq!(decimal_u64(0), "0");
    assert_eq!(decimal_u64(7), "7");
    assert_eq!(decimal_u64(1060), "1060");
    assert_eq!(decimal_u64(u64::MAX), "18446744073709551615");
    assert_eq!(decimal_i64(0), "0");
    assert_eq!(decimal_i64(-2), "-2");
    assert_eq!(decimal_i64(i64::MIN), "-9223372036854775808");
}

#[test]
fn error_description() {
    let e = ScmError::new("boom".to_string(), 5);
    assert_eq!(e.describe(), "WinSCM error, code: [5], message: [boom]");
}

#[test]
fn name_widened_with_terminator() {
    assert_eq!(widen_service_name("svc1").unwrap(), vec![0x73, 0x76, 0x63, 0x31, 0]);
    assert_eq!(widen_service_name("").unwrap(), vec![0]);
    assert_eq!(widen_service_name("\u{1F600}é").unwrap(), vec![0xD83D, 0xDE00, 0xE9, 0]);
}

#[test]
fn name_with_nul_refused() {
    let e = widen_service_name("a\u{0}b").unwrap_err();
    assert_eq!(e.code, 1);
    assert_eq!(e.msg, "Name widen error, value: [a\u{0}b]");
}

#[test]
fn name_ending_in_nul_keeps_it_as_terminator() {
    assert_eq!(widen_service_name("a\u{0}").unwrap(), vec![0x61, 0]);
    assert_eq!(widen_service_name("\u{0}").unwrap(), vec![0]);
    let e = widen_service_name("a\u{0}b\u{0}").unwrap_err();
    assert_eq!(e.code, 1);
    assert_eq!(e.msg, "Name widen error, value: [a\u{0}b\u{0}]");
}

#[test]
fn module_handle_failure() {
    let e = module_handle_error(126);
    assert_eq!(e.code, 126);
    assert_eq!(e.msg, "GetModuleHandleExW error");
}

#[test]
fn module_path_decoded_from_buffer() {
    let mut buf = vec![0u16; 16];
    let path: Vec<u16> = "C:\\x.dll".encode_utf16().collect();
    buf[..path.len()].copy_from_slice(&path);
    assert_eq!(module_file_from_buffer(&buf, path.len() as u32, 9).unwrap(), "C:\\x.dll");
    assert_eq!(module_file_from_buffer(&buf, 2, 9).unwrap(), "C:");
}

#[test]
fn module_path_bad_length() {
    let buf = vec![0x41u16; 4];
    let e = module_file_from_buffer(&buf, 0, 122).unwrap_err();
    assert_eq!(e.code, 122);
    assert_eq!(e.msg, "GetModuleFileNameW error, returned length: [0]");
    let e = module_file_from_buffer(&buf, 4, 122).unwrap_err();
    assert_eq!(e.code, 122);
    assert_eq!(e.msg, "GetModuleFileNameW error, returned length: [4]");
}

#[test]
fn module_path_invalid_utf16() {
    let buf = vec![0x41u16, 0xD800, 0x41, 0];
    let e = module_file_from_buffer(&buf, 3, 9).unwrap_err();
    assert_eq!(e.code, 1);
    assert!(e.msg.starts_with("GetModuleFileNameW UTF-8 error, message: ["));
    assert!(e.msg.ends_with("]"));
    assert!(e.msg.len() > "GetModuleFileNameW UTF-8 error, message: []".len());
}
