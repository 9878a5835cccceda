use std::cell::RefCell;
use wayle_plugin::sdk::host::{
    allocation_size, command_len, command_output_result, input_range, pack, pack_payload,
    packed_output, parse_host_error, payload_length, plain_result, plugin_abi_version,
    run_command, run_command_reply, run_command_typed, unpack_payload, HostError,
};
use wayle_plugin::PLUGIN_ABI_VERSION;

#[test]
fn plugin_abi_and_alloc_basics() {
    assert_eq!(plugin_abi_version(), PLUGIN_ABI_VERSION);
    assert_eq!(allocation_size(0), None);
    assert_eq!(allocation_size(8), Some(8));
    assert_eq!(allocation_size(-3), None);
}

#[test]
fn read_input_validates_negative_arguments() {
    assert!(input_range(-1, 1).is_err());
    assert!(input_range(1, -1).is_err());
    assert_eq!(input_range(-1, -1), Err(String::from("negative pointer")));
    assert_eq!(input_range(1, -1), Err(String::from("negative length")));
    assert_eq!(input_range(16, 4), Ok((16, 4)));
}

#[test]
fn pack_places_pointer_high_and_length_low() {
    assert_eq!(pack_payload(1, 2), (1i64 << 32) | 2);
    assert_eq!(pack(0x10, 0x20), 0x10_0000_0020);
    assert_eq!(pack_payload(-1, -1), -1);
    assert_eq!(unpack_payload(pack_payload(1234, 56)), (1234, 56));
    assert_eq!(unpack_payload(pack_payload(-1, -2)), (0xffff_ffff, 0xffff_fffe));
    assert_eq!(unpack_payload(0), (0, 0));
}

#[test]
fn encode_helpers() {
    assert_eq!(payload_length(12), Some(12));
    assert_eq!(payload_length(usize::MAX), None);
    assert_eq!(packed_output(0, 5), 0);
    assert_eq!(packed_output(-4, 5), 0);
    assert_eq!(packed_output(8, 5), pack_payload(8, 5));
}

#[test]
fn host_error_codes_and_messages() {
    assert_eq!(
        parse_host_error("WAYLE_ERR_POLICY_VIOLATION:not:allowed"),
        HostError::PolicyViolation(String::from("not:allowed"))
    );
    assert_eq!(
        parse_host_error("WAYLE_ERR_INVALID_ACTION:x"),
        HostError::InvalidAction(String::from("x"))
    );
    assert_eq!(
        parse_host_error("WAYLE_ERR_UNAVAILABLE:"),
        HostError::Unavailable(String::new())
    );
    assert_eq!(
        parse_host_error("OTHER:thing"),
        HostError::Legacy(String::from("OTHER:thing"))
    );
    let unknown = HostError::UnknownCode {
        code: String::from("WAYLE_ERR_X"),
        message: String::from("y"),
    };
    assert_eq!(unknown.to_message(), "WAYLE_ERR_X:y");
    assert_eq!(HostError::Legacy(String::from("z")).to_message(), "z");
}

#[test]
fn command_output_is_decoded() {
    assert_eq!(command_output_result("hello\0\0"), Ok(String::from("hello")));
    assert_eq!(
        command_output_result("__WAYLE_ERROR__:WAYLE_ERR_PERMISSION_DENIED:missing capability command.exec"),
        Err(HostError::PermissionDenied(String::from("missing capability command.exec")))
    );
    assert_eq!(
        command_output_result("__WAYLE_ERROR__:WAYLE_ERR_UNAVAILABLE:boom\0"),
        Err(HostError::Unavailable(String::from("boom")))
    );
    assert_eq!(
        run_command_reply(0, Ok(String::from("ignored"))),
        Err(HostError::Unavailable(String::from("host command returned no output")))
    );
    assert_eq!(
        run_command_reply(5, Err(String::from("bad utf-8"))),
        Err(HostError::Unavailable(String::from("bad utf-8")))
    );
    assert_eq!(run_command_reply(5, Ok(String::from("ok"))), Ok(String::from("ok")));
    assert_eq!(
        plain_result(Err(HostError::PolicyViolation(String::from("no")))),
        Err(String::from("no"))
    );
    assert_eq!(command_len("abc"), Ok(3));
}

#[test]
fn run_command_goes_through_the_host() {
    let sent: RefCell<Vec<(String, i32)>> = RefCell::new(Vec::new());
    let send = |command: &str, len: i32| -> i64 {
        sent.borrow_mut().push((String::from(command), len));
        7
    };
    let read_out = |packed: i64| -> Result<String, String> {
        assert_eq!(packed, 7);
        Ok(String::from("out\0"))
    };
    assert_eq!(run_command_typed(&send, &read_out, "echo out"), Ok(String::from("out")));
    assert_eq!(*sent.borrow(), vec![(String::from("echo out"), 8)]);
    let read_denied = |_packed: i64| -> Result<String, String> {
        Ok(String::from(
            "__WAYLE_ERROR__:WAYLE_ERR_POLICY_VIOLATION:command not allowed by command-exec-allowed-prefixes",
        ))
    };
    assert_eq!(
        run_command(&send, &read_denied, "rm -rf /"),
        Err(String::from("command not allowed by command-exec-allowed-prefixes"))
    );
    let silent = |_command: &str, _len: i32| -> i64 { 0 };
    let never_read = |_packed: i64| -> Result<String, String> {
        panic!("no reply to read")
    };
    assert_eq!(
        run_command(&silent, &never_read, "true"),
        Err(String::from("host command returned no output"))
    );
    let unreadable = |_packed: i64| -> Result<String, String> { Err(String::from("bad utf-8")) };
    assert_eq!(
        run_command_typed(&send, &unreadable, "ls"),
        Err(HostError::Unavailable(String::from("bad utf-8")))
    );
}
