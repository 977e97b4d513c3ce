use terminal_service::{
    exit_code_of, opened_response, output_response, pty_size_of, split_assignment, CloseTerminal,
    OpenTerminal, ResizeTerminal, TerminalClosed, TerminalData, TerminalError, TerminalFailure, TerminalOpened,
    TerminalRequest, TerminalResponse, TerminalService, READ_CHUNK,
};

fn open_sh() -> TerminalRequest {
    TerminalRequest::Open(OpenTerminal {
        shell: "/bin/sh".to_string(),
        rows: 24,
        cols: 80,
        env: vec![],
    })
}

fn close(force: bool) -> TerminalRequest {
    TerminalRequest::Close(CloseTerminal { force })
}

#[test]
fn split_assignment_at_first_equals() {
    assert_eq!(split_assignment("TERM=xterm"), Some(("TERM", "xterm")));
    assert_eq!(split_assignment("A=b=c"), Some(("A", "b=c")));
    assert_eq!(split_assignment("=x"), Some(("", "x")));
    assert_eq!(split_assignment("EMPTY="), Some(("EMPTY", "")));
}

#[test]
fn split_assignment_without_equals_is_dropped() {
    assert_eq!(split_assignment("NOEQUALS"), None);
    assert_eq!(split_assignment(""), None);
}

#[test]
fn opened_response_carries_pid_or_zero() {
    assert_eq!(
        opened_response(Some(4242)),
        TerminalResponse::Opened(TerminalOpened {
            success: true,
            message: "Terminal opened".to_string(),
            pid: 4242,
        })
    );
    assert_eq!(
        opened_response(None),
        TerminalResponse::Opened(TerminalOpened {
            success: true,
            message: "Terminal opened".to_string(),
            pid: 0,
        })
    );
}

#[test]
fn exit_code_is_status_as_signed() {
    assert_eq!(exit_code_of(0), 0);
    assert_eq!(exit_code_of(3), 3);
    assert_eq!(exit_code_of(u32::MAX), -1);
}

#[test]
fn output_response_for_bytes_end_and_error() {
    let buf = vec![b'a', b'b', b'c', 0, 0];
    assert_eq!(output_response(&buf, Ok(0)), None);
    assert_eq!(
        output_response(&buf, Ok(3)),
        Some(TerminalResponse::Data(TerminalData { data: b"abc".to_vec() }))
    );
    assert_eq!(
        output_response(&buf, Ok(5)),
        Some(TerminalResponse::Data(TerminalData { data: buf.clone() }))
    );
    assert_eq!(
        output_response(&buf, Err("broken pipe".to_string())),
        Some(TerminalResponse::Error(TerminalError {
            message: "Read error: broken pipe".to_string(),
        }))
    );
    assert_eq!(READ_CHUNK, 1024);
}

#[test]
fn empty_request_gives_empty_response() {
    let mut t = TerminalService::new(1);
    assert_eq!(t.handle_request(&TerminalRequest::Empty), Ok(TerminalResponse::Empty));
}

#[test]
fn resize_and_data_on_closed_session_are_no_ops() {
    let mut t = TerminalService::new(2);
    let resize = TerminalRequest::Resize(ResizeTerminal { rows: 40, cols: 120 });
    assert_eq!(t.handle_request(&resize), Ok(TerminalResponse::Empty));
    let data = TerminalRequest::Data(TerminalData { data: b"ls\n".to_vec() });
    assert_eq!(t.handle_request(&data), Ok(TerminalResponse::Empty));
    assert_eq!(t.read_output(), Ok(None));
}

#[test]
fn close_on_closed_session_reports_zero() {
    let mut t = TerminalService::new(3);
    let expected = TerminalResponse::Closed(TerminalClosed { exit_code: 0 });
    assert_eq!(
        t.handle_request(&close(false)),
        Ok(TerminalResponse::Closed(TerminalClosed { exit_code: 0 }))
    );
    assert_eq!(t.handle_request(&close(true)), Ok(expected));
}

#[test]
fn read_output_on_closed_session_is_silent() {
    let mut t = TerminalService::new(4);
    assert_eq!(t.read_output(), Ok(None));
    assert_eq!(t.read_output(), Ok(None));
}

#[test]
fn open_then_second_open_is_refused() {
    let mut t = TerminalService::new(5);
    match t.handle_request(&open_sh()) {
        Ok(TerminalResponse::Opened(o)) => {
            assert!(o.success);
            assert_eq!(o.message, "Terminal opened");
            assert!(o.pid > 0);
        }
        other => panic!("unexpected open result: {:?}", other),
    }
    assert_eq!(
        t.handle_request(&open_sh()),
        Ok(TerminalResponse::Opened(TerminalOpened {
            success: false,
            message: "Terminal already open".to_string(),
            pid: 0,
        }))
    );
    assert_eq!(
        t.handle_request(&close(true)),
        Ok(TerminalResponse::Closed(TerminalClosed { exit_code: -1 }))
    );
}

#[test]
fn data_is_echoed_and_output_is_polled() {
    let mut t = TerminalService::new(6);
    assert!(matches!(t.handle_request(&open_sh()), Ok(TerminalResponse::Opened(_))));
    let data = TerminalRequest::Data(TerminalData { data: b"echo hi\n".to_vec() });
    assert_eq!(
        t.handle_request(&data),
        Ok(TerminalResponse::Data(TerminalData { data: b"echo hi\n".to_vec() }))
    );
    match t.read_output() {
        Ok(Some(TerminalResponse::Data(d))) => {
            assert!(!d.data.is_empty());
            assert!(d.data.len() <= READ_CHUNK);
        }
        other => panic!("unexpected poll result: {:?}", other),
    }
    let resize = TerminalRequest::Resize(ResizeTerminal { rows: 30, cols: 100 });
    assert_eq!(t.handle_request(&resize), Ok(TerminalResponse::Empty));
    assert_eq!(
        t.handle_request(&close(true)),
        Ok(TerminalResponse::Closed(TerminalClosed { exit_code: -1 }))
    );
}

#[test]
fn natural_close_reports_exit_status_then_resize_is_no_op() {
    let mut t = TerminalService::new(7);
    let env = vec!["GREETING=hello".to_string(), "MALFORMED".to_string()];
    let open = TerminalRequest::Open(OpenTerminal {
        shell: "/bin/sh".to_string(),
        rows: 24,
        cols: 80,
        env,
    });
    assert!(matches!(t.handle_request(&open), Ok(TerminalResponse::Opened(_))));
    let script = b"[ \"$GREETING\" = hello ] && [ -z \"$MALFORMED\" ] && exit 0; exit 9\n";
    let data = TerminalRequest::Data(TerminalData { data: script.to_vec() });
    assert!(t.handle_request(&data).is_ok());
    assert_eq!(
        t.handle_request(&close(false)),
        Ok(TerminalResponse::Closed(TerminalClosed { exit_code: 0 }))
    );
    let resize = TerminalRequest::Resize(ResizeTerminal { rows: 10, cols: 10 });
    assert_eq!(t.handle_request(&resize), Ok(TerminalResponse::Empty));
    assert_eq!(t.read_output(), Ok(None));
}

#[test]
fn natural_close_reports_nonzero_status() {
    let mut t = TerminalService::new(8);
    assert!(matches!(t.handle_request(&open_sh()), Ok(TerminalResponse::Opened(_))));
    let data = TerminalRequest::Data(TerminalData { data: b"exit 3\n".to_vec() });
    assert!(t.handle_request(&data).is_ok());
    assert_eq!(
        t.handle_request(&close(false)),
        Ok(TerminalResponse::Closed(TerminalClosed { exit_code: 3 }))
    );
}

#[test]
fn open_with_missing_program_fails_and_stays_closed() {
    let mut t = TerminalService::new(9);
    let open = TerminalRequest::Open(OpenTerminal {
        shell: "/nonexistent/shell-program".to_string(),
        rows: 24,
        cols: 80,
        env: vec![],
    });
    assert!(matches!(
        t.handle_request(&open),
        Err(TerminalFailure::ProcessSpawnFailed(_))
    ));
    assert_eq!(
        t.handle_request(&close(true)),
        Ok(TerminalResponse::Closed(TerminalClosed { exit_code: 0 }))
    );
}

#[test]
fn pty_size_has_no_pixel_sizes() {
    let size = pty_size_of(24, 80);
    assert_eq!(size.rows, 24);
    assert_eq!(size.cols, 80);
    assert_eq!(size.pixel_width, 0);
    assert_eq!(size.pixel_height, 0);
}
