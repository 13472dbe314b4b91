use mob_rs::host::process::builder::{ProcessBuilder, ProcessFlags, ProcessOutput, StreamFlags};
use mob_rs::host::process::decode::decode_utf16_lossy;
use mob_rs::host::process::runner::{collect_output, reads_stream, stdio_from_flags, StdioChoice};

#[test]
fn test_executable_lookup_not_found() {
    let program = "nonexistent_program_12345";
    let which_result = ProcessBuilder::which(program);
    assert!(which_result.is_err(), "which: nonexistent program should not be found");
    let err_msg = which_result.err().unwrap().message();
    assert!(
        err_msg.contains("not found") || err_msg.contains(program),
        "which: error should mention the program: {err_msg}"
    );
    assert!(!ProcessBuilder::program_exists(program), "exists: nonexistent program should not exist");
    assert!(ProcessBuilder::find(program).is_none(), "find: nonexistent program should return None");
    assert!(ProcessBuilder::find_all(program).is_empty());
}

#[test]
fn test_command_line_quotes_spaces() {
    let b = ProcessBuilder::new("/usr/bin/tool").arg("plain").arg("with space");
    assert_eq!(b.command_line(), "/usr/bin/tool plain \"with space\"");
    assert_eq!(b.display_name(), "tool");
    assert_eq!(ProcessBuilder::new("x").name("custom").display_name(), "custom");
}

#[test]
fn test_exit_failure_rules() {
    let b = ProcessBuilder::new("tool").success_codes(vec![3, 0, 3]);
    assert!(b.exit_failure("tool", &ProcessOutput::new(3, String::new(), String::new(), false)).is_none());
    assert_eq!(
        b.exit_failure("tool", &ProcessOutput::new(1, String::new(), String::new(), false)),
        Some("tool exited with code 1 (expected one of {0, 3})".to_string())
    );
    assert!(b.exit_failure("tool", &ProcessOutput::new(1, String::new(), String::new(), true)).is_none());
    let lenient = ProcessBuilder::new("tool").flag(ProcessFlags::allow_failure());
    assert!(lenient.exit_failure("tool", &ProcessOutput::new(9, String::new(), String::new(), false)).is_none());
}

#[test]
fn test_stream_handling() {
    assert_eq!(stdio_from_flags(StreamFlags::inherit()), StdioChoice::Inherit);
    assert_eq!(stdio_from_flags(StreamFlags::bit_bucket()), StdioChoice::Null);
    assert_eq!(stdio_from_flags(StreamFlags::keep_in_string()), StdioChoice::Piped);
    assert!(reads_stream(StreamFlags::forward_to_log()));
    assert!(!reads_stream(StreamFlags::bit_bucket()));
    let lines = vec!["a".to_string(), "b".to_string()];
    assert_eq!(collect_output(&lines, StreamFlags::keep_in_string()), "a\nb");
    assert_eq!(collect_output(&lines, StreamFlags::forward_to_log()), "");
}

#[test]
fn test_decode_utf16_lossy() {
    let text = "héllo \u{1F600}";
    let bytes: Vec<u8> = text.encode_utf16().flat_map(|u| u.to_le_bytes()).collect();
    assert_eq!(decode_utf16_lossy(&bytes), text);
    // An unpaired high surrogate, then 'A'; a last odd byte is left out.
    let bytes = vec![0x00, 0xD8, 0x41, 0x00, 0x42];
    assert_eq!(decode_utf16_lossy(&bytes), "\u{FFFD}A");
}

#[test]
fn test_raw_keeps_new_settings() {
    let b = ProcessBuilder::raw("exit 42");
    assert!(b.working_dir().is_none());
    assert!(b.environment().is_none());
    assert_eq!(b.success_code_set(), &vec![0]);
    assert!(b.name_override().is_none());
    assert!(b.timeout_duration().is_none());
}
