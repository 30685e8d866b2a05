use rfkill::name::{device_name, name_path, NameAction, NameEvent, NameLookup};
use rfkill::rfkill::RfKill;
use rfkill::text::{decimal_string, first_line, str_eq};
use rfkill::{
    OsError, RfKillEvent, RfkillOperations, RfkillType, RFKILL_NAME_SIZE, RFKILL_PATH,
    RFKILL_SYS_PATH,
};

fn buffer_with(content: &[u8]) -> Vec<u8> {
    let mut buffer = vec![0u8; RFKILL_NAME_SIZE];
    buffer[..content.len()].copy_from_slice(content);
    buffer
}

#[test]
fn paths_are_the_kernel_ones() {
    assert_eq!(RFKILL_PATH, "/dev/rfkill");
    assert_eq!(RFKILL_SYS_PATH, "/sys/class/rfkill/rfkill");
    assert_eq!(RFKILL_NAME_SIZE, 128);
}

#[test]
fn name_path_holds_the_index_in_decimal() {
    assert_eq!(name_path(0), "/sys/class/rfkill/rfkill0/name");
    assert_eq!(name_path(7), "/sys/class/rfkill/rfkill7/name");
    assert_eq!(name_path(10), "/sys/class/rfkill/rfkill10/name");
    assert_eq!(name_path(u32::MAX), "/sys/class/rfkill/rfkill4294967295/name");
}

#[test]
fn decimal_string_writes_as_the_standard_library_does() {
    for n in [0u32, 1, 9, 10, 11, 99, 100, 101, 1000, 65535, 65536, 1_000_000_007, u32::MAX - 1, u32::MAX] {
        assert_eq!(decimal_string(n), n.to_string());
    }
    for n in 0u32..2000 {
        assert_eq!(decimal_string(n), n.to_string());
    }
    assert_eq!(decimal_string(4_294_967_295), "4294967295");
    assert_eq!(decimal_string(1_000_000), "1000000");
}

#[test]
fn str_eq_is_equality_of_strings() {
    let samples = ["", "a", "A", "ab", "ba", "GPS", "GPS ", "gps", "é", "e\u{301}", "☢", "☢☢"];
    for a in samples {
        for b in samples {
            assert_eq!(str_eq(a, b), a == b);
        }
    }
}

#[test]
fn first_line_stops_at_the_first_newline() {
    assert_eq!(first_line("hci0\nextra"), "hci0");
    assert_eq!(first_line("hci0\n"), "hci0");
    assert_eq!(first_line("a\nb\nc"), "a");
    assert_eq!(first_line("\nabc"), "");
    assert_eq!(first_line("\n"), "");
}

#[test]
fn first_line_without_newline_is_the_whole_text() {
    assert_eq!(first_line(""), "");
    assert_eq!(first_line("phy0"), "phy0");
    assert_eq!(first_line("tab\tand\rreturn"), "tab\tand\rreturn");
}

#[test]
fn first_line_counts_characters_not_bytes() {
    assert_eq!(first_line("grüße ☢\nrest"), "grüße ☢");
    assert_eq!(first_line("☢☢☢"), "☢☢☢");
}

#[test]
fn device_name_of_a_buffer_with_a_second_line() {
    let buffer = buffer_with(b"hci0\nextra");
    assert_eq!(device_name(&buffer), "hci0");
}

#[test]
fn device_name_of_a_usual_name_file() {
    assert_eq!(device_name(&buffer_with(b"hci0\n")), "hci0");
    assert_eq!(device_name(&buffer_with(b"phy0\n")), "phy0");
    assert_eq!(device_name(&buffer_with(b"tpacpi_bluetooth_sw\n")), "tpacpi_bluetooth_sw");
}

#[test]
fn device_name_without_newline_runs_to_the_end_of_the_buffer() {
    let buffer = buffer_with(b"hci0");
    let name = device_name(&buffer);
    assert_eq!(name.len(), RFKILL_NAME_SIZE);
    assert!(name.starts_with("hci0\0"));
    assert!(name[4..].bytes().all(|b| b == 0));
    let full = vec![b'x'; RFKILL_NAME_SIZE];
    assert_eq!(device_name(&full), "x".repeat(RFKILL_NAME_SIZE));
}

#[test]
fn device_name_of_an_empty_file_is_the_zeroed_buffer() {
    let name = device_name(&buffer_with(b""));
    assert_eq!(name, "\0".repeat(RFKILL_NAME_SIZE));
}

#[test]
fn device_name_decodes_utf8() {
    let buffer = buffer_with("grüße ☢\nrest".as_bytes());
    assert_eq!(device_name(&buffer), "grüße ☢");
}

#[test]
fn device_name_replaces_bytes_that_are_not_utf8() {
    let buffer = buffer_with(&[b'a', 0xff, b'b', b'\n', b'c']);
    assert_eq!(device_name(&buffer), "a\u{fffd}b");
    let buffer = buffer_with(&[0xe2, 0x98, b'\n']);
    assert_eq!(device_name(&buffer), "\u{fffd}");
}

#[test]
fn device_name_takes_buffers_of_any_length() {
    assert_eq!(device_name(&[]), "");
    assert_eq!(device_name(b"x\ny"), "x");
    assert_eq!(device_name(b"xy"), "xy");
}

#[test]
fn lookup_starts_with_the_open_of_the_name_file() {
    let (state, action) = NameLookup::start(0);
    assert_eq!(state, NameLookup::Opening);
    assert_eq!(
        action,
        NameAction::Open { path: "/sys/class/rfkill/rfkill0/name".to_string() }
    );
    let (state, action) = RfKill::get_name(12);
    assert_eq!(state, NameLookup::Opening);
    assert_eq!(
        action,
        NameAction::Open { path: "/sys/class/rfkill/rfkill12/name".to_string() }
    );
}

#[test]
fn event_get_name_looks_up_its_own_switch() {
    let event = RfKillEvent {
        device_index: 5,
        device: RfkillType::Bluetooth,
        operation: RfkillOperations::RfKillOpAdd,
        is_soft: false,
        is_hard: false,
    };
    let (state, action) = event.get_name();
    assert_eq!(state, NameLookup::Opening);
    assert_eq!(
        action,
        NameAction::Open { path: "/sys/class/rfkill/rfkill5/name".to_string() }
    );
}

#[test]
fn lookup_of_a_name_file_gives_its_first_line() {
    let (state, _) = RfKill::get_name(0);
    let (state, action) = state.advance(NameEvent::Opened { fd: 4 });
    assert_eq!(state, NameLookup::Reading { fd: 4 });
    assert_eq!(action, NameAction::Read { fd: 4, len: 128 });
    let (state, action) = state.advance(NameEvent::ReadDone { buffer: buffer_with(b"hci0\nextra") });
    assert_eq!(state, NameLookup::Closing { result: Ok("hci0".to_string()) });
    assert_eq!(action, NameAction::Close { fd: 4 });
    let (state, action) = state.advance(NameEvent::Closed);
    assert_eq!(state, NameLookup::Finished);
    assert_eq!(action, NameAction::Finish { result: Ok("hci0".to_string()) });
}

#[test]
fn lookup_of_a_missing_name_file_fails_and_opens_nothing() {
    let not_found = OsError { errno: 2 };
    let (state, _) = RfKill::get_name(0);
    let (state, action) = state.advance(NameEvent::Failed { error: not_found });
    assert_eq!(action, NameAction::Finish { result: Err(not_found) });
    assert_eq!(state, NameLookup::Finished);
}

#[test]
fn lookup_closes_the_file_when_the_read_fails() {
    let io = OsError { errno: 5 };
    let (state, _) = RfKill::get_name(1);
    let (state, _) = state.advance(NameEvent::Opened { fd: 9 });
    let (state, action) = state.advance(NameEvent::Failed { error: io });
    assert_eq!(action, NameAction::Close { fd: 9 });
    assert_eq!(state, NameLookup::Closing { result: Err(io) });
    let (state, action) = state.advance(NameEvent::Closed);
    assert_eq!(action, NameAction::Finish { result: Err(io) });
    assert_eq!(state, NameLookup::Finished);
}

#[test]
fn lookup_reports_the_error_of_a_failed_close() {
    let bad_fd = OsError { errno: 9 };
    let (state, _) = RfKill::get_name(1);
    let (state, _) = state.advance(NameEvent::Opened { fd: 9 });
    let (state, _) = state.advance(NameEvent::ReadDone { buffer: buffer_with(b"hci0\n") });
    let (state, action) = state.advance(NameEvent::Failed { error: bad_fd });
    assert_eq!(action, NameAction::Finish { result: Err(bad_fd) });
    assert_eq!(state, NameLookup::Finished);

    let io = OsError { errno: 5 };
    let (state, _) = RfKill::get_name(1);
    let (state, _) = state.advance(NameEvent::Opened { fd: 9 });
    let (state, _) = state.advance(NameEvent::Failed { error: io });
    let (_, action) = state.advance(NameEvent::Failed { error: bad_fd });
    assert_eq!(action, NameAction::Finish { result: Err(bad_fd) });
}

#[test]
fn lookup_closes_once_for_each_open_on_every_path() {
    let fail = OsError { errno: 5 };
    for open_ok in [false, true] {
        for read_ok in [false, true] {
            for close_ok in [false, true] {
                let mut opens = 0;
                let mut closes = 0;
                let (mut state, mut action) = RfKill::get_name(0);
                let mut result = None;
                while result.is_none() {
                    let event = match action {
                        NameAction::Open { .. } if open_ok => {
                            opens += 1;
                            NameEvent::Opened { fd: 6 }
                        }
                        NameAction::Read { fd, len } if read_ok => {
                            assert_eq!((fd, len), (6, 128));
                            NameEvent::ReadDone { buffer: buffer_with(b"hci0\n") }
                        }
                        NameAction::Close { fd } => {
                            assert_eq!(fd, 6);
                            closes += 1;
                            if close_ok {
                                NameEvent::Closed
                            } else {
                                NameEvent::Failed { error: fail }
                            }
                        }
                        NameAction::Finish { result: r } => {
                            result = Some(r);
                            break;
                        }
                        _ => NameEvent::Failed { error: fail },
                    };
                    assert!(state.expects(&event));
                    (state, action) = state.advance(event);
                }
                assert_eq!(opens, closes);
                assert_eq!(opens, if open_ok { 1 } else { 0 });
                let expected = if open_ok && read_ok && close_ok {
                    Ok("hci0".to_string())
                } else {
                    Err(fail)
                };
                assert_eq!(result, Some(expected));
            }
        }
    }
}

#[test]
fn expects_tells_which_events_fit_a_state() {
    let opened = NameEvent::Opened { fd: 1 };
    let read = NameEvent::ReadDone { buffer: vec![] };
    let closed = NameEvent::Closed;
    let failed = NameEvent::Failed { error: OsError { errno: 5 } };

    let opening = NameLookup::Opening;
    assert!(opening.expects(&opened));
    assert!(opening.expects(&failed));
    assert!(!opening.expects(&read));
    assert!(!opening.expects(&closed));

    let reading = NameLookup::Reading { fd: 1 };
    assert!(reading.expects(&read));
    assert!(reading.expects(&failed));
    assert!(!reading.expects(&opened));
    assert!(!reading.expects(&closed));

    let closing = NameLookup::Closing { result: Ok("x".to_string()) };
    assert!(closing.expects(&closed));
    assert!(closing.expects(&failed));
    assert!(!closing.expects(&opened));
    assert!(!closing.expects(&read));

    let finished = NameLookup::Finished;
    assert!(!finished.expects(&opened));
    assert!(!finished.expects(&read));
    assert!(!finished.expects(&closed));
    assert!(!finished.expects(&failed));
}
