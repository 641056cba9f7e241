use zellij_sshd::adapter::classify_stdin_read;
use zellij_sshd::adapter::signal_outcome;
use zellij_sshd::adapter::SignalOutcome;
use zellij_sshd::adapter::StdinError;
use zellij_sshd::adapter::StdinRead;
use zellij_sshd::adapter::ZellijClientData;
use zellij_sshd::bridge::Session;
use zellij_sshd::lifecycle::ClientOptions;
use zellij_sshd::lifecycle::CliIntent;
use zellij_sshd::protocol::HandlerEvent;
use zellij_sshd::protocol::ServerChannelId;
use zellij_sshd::protocol::SignalKind;
use zellij_sshd::protocol::WinSize;
use interprocess::local_socket::GenericFilePath;
use interprocess::local_socket::ListenerOptions;
use interprocess::local_socket::ToFsName;

fn fresh_intent() -> CliIntent {
    CliIntent {
        command: None,
        session: None,
        options: ClientOptions { session_name: None, attach_to_session: None },
    }
}

fn test_geometry() -> WinSize {
    WinSize { ws_row: 24, ws_col: 80, ws_xpixel: 0, ws_ypixel: 0 }
}

#[test]
fn stash_is_returned_before_the_channel() {
    // The bridge's data channel stays empty and loses its sender: a read
    // that consulted the channel could only fail, so returning the stash
    // shows the channel was not consulted.
    let bridge = Session::new(fresh_intent());
    let (tx, _rx) = tokio::sync::mpsc::unbounded_channel();
    let mut io = bridge.make_adapter(test_geometry(), ServerChannelId(1), tx);
    drop(bridge);

    io.stashed_stdin = Some(vec![1, 2, 3]);
    assert_eq!(io.read_from_stdin(), Ok(vec![1, 2, 3]));
    assert_eq!(io.stashed_stdin, None);

    // With the stash drained and the channel disconnected, the next read
    // reports the disconnect.
    assert_eq!(io.read_from_stdin(), Err(StdinError::Disconnected));
}

#[test]
fn queued_data_is_read_fresh() {
    let bridge = Session::new(fresh_intent());
    let (tx, _rx) = tokio::sync::mpsc::unbounded_channel();
    let mut io = bridge.make_adapter(test_geometry(), ServerChannelId(1), tx);
    let _ = bridge.data_sender.send(vec![104, 105]);
    assert_eq!(io.read_from_stdin(), Ok(vec![104, 105]));
    assert_eq!(io.stashed_stdin, None);
}

#[test]
fn read_with_stable_session_name_stays_fresh() {
    let mut bridge = Session::new(fresh_intent());
    let (tx, _rx) = tokio::sync::mpsc::unbounded_channel();
    let mut io = bridge.make_adapter(test_geometry(), ServerChannelId(1), tx);
    io.update_session_name("alpha".to_string());
    bridge.handle_event(HandlerEvent::Data(ServerChannelId(1), vec![7]), None);
    assert_eq!(io.read_from_stdin(), Ok(vec![7]));
}

#[test]
fn switched_session_marks_the_read_stale() {
    let stale = classify_stdin_read(
        &Some("alpha".to_string()),
        &Some("beta".to_string()),
        vec![9, 9],
    );
    assert_eq!(stale, StdinRead::Stale(vec![9, 9]));

    let cleared = classify_stdin_read(&Some("alpha".to_string()), &None, vec![1]);
    assert_eq!(cleared, StdinRead::Stale(vec![1]));
}

#[test]
fn unset_session_name_skips_the_staleness_check() {
    let fresh = classify_stdin_read(&None, &Some("beta".to_string()), vec![2]);
    assert_eq!(fresh, StdinRead::Fresh(vec![2]));
    let same = classify_stdin_read(
        &Some("alpha".to_string()),
        &Some("alpha".to_string()),
        vec![3],
    );
    assert_eq!(same, StdinRead::Fresh(vec![3]));
}

#[test]
fn writes_are_decoded_and_forwarded() {
    let bridge = Session::new(fresh_intent());
    let (tx, mut rx) = tokio::sync::mpsc::unbounded_channel();
    let io = bridge.make_adapter(test_geometry(), ServerChannelId(1), tx);
    let mut writer = io.get_stdout_writer();
    let n = writer.write(b"hello");
    assert_eq!(n, 5);
    match rx.try_recv() {
        Ok(ZellijClientData::Data(s)) => assert_eq!(s, "hello"),
        other => panic!("expected data, got {:?}", other),
    }
}

#[test]
fn invalid_utf8_is_replaced_not_dropped() {
    let bridge = Session::new(fresh_intent());
    let (tx, mut rx) = tokio::sync::mpsc::unbounded_channel();
    let io = bridge.make_adapter(test_geometry(), ServerChannelId(1), tx);
    let mut writer = io.get_stdout_writer();
    writer.write_all(&[255, 104]);
    match rx.try_recv() {
        Ok(ZellijClientData::Data(s)) => assert_eq!(s, "\u{FFFD}h"),
        other => panic!("expected data, got {:?}", other),
    }
}

#[test]
fn mouse_sequences_are_the_tracking_escapes() {
    let bridge = Session::new(fresh_intent());
    let (tx, mut rx) = tokio::sync::mpsc::unbounded_channel();
    let mut io = bridge.make_adapter(test_geometry(), ServerChannelId(1), tx);
    assert!(io.enable_mouse().is_ok());
    match rx.try_recv() {
        Ok(ZellijClientData::Data(s)) => {
            assert_eq!(s, "\u{1b}[?1000h\u{1b}[?1002h\u{1b}[?1015h\u{1b}[?1006h")
        },
        other => panic!("expected data, got {:?}", other),
    }
    assert!(io.disable_mouse().is_ok());
    match rx.try_recv() {
        Ok(ZellijClientData::Data(s)) => {
            assert_eq!(s, "\u{1b}[?1006l\u{1b}[?1015l\u{1b}[?1002l\u{1b}[?1000l")
        },
        other => panic!("expected data, got {:?}", other),
    }
}

#[test]
fn close_sends_the_exit_notification() {
    let bridge = Session::new(fresh_intent());
    let (tx, mut rx) = tokio::sync::mpsc::unbounded_channel();
    let mut io = bridge.make_adapter(test_geometry(), ServerChannelId(1), tx);
    io.close();
    assert!(matches!(rx.try_recv(), Ok(ZellijClientData::Exit)));
}

#[test]
fn terminal_size_reports_the_cached_geometry() {
    let bridge = Session::new(fresh_intent());
    let (tx, _rx) = tokio::sync::mpsc::unbounded_channel();
    let mut io = bridge.make_adapter(test_geometry(), ServerChannelId(1), tx);
    let s = io.get_terminal_size_using_fd(0);
    assert_eq!((s.rows, s.cols), (24, 80));
    io.set_terminal_size(WinSize { ws_row: 50, ws_col: 120, ws_xpixel: 0, ws_ypixel: 0 });
    let s = io.get_terminal_size_using_fd(0);
    assert_eq!((s.rows, s.cols), (50, 120));
}

#[test]
fn signal_outcomes_follow_the_terminate_class() {
    assert_eq!(signal_outcome(SignalKind::Term), SignalOutcome::Quit);
    assert_eq!(signal_outcome(SignalKind::Hup), SignalOutcome::Quit);
    assert_eq!(signal_outcome(SignalKind::Usr1), SignalOutcome::Unexpected);
}

#[test]
fn handle_signals_reads_the_signal_channel() {
    let mut bridge = Session::new(fresh_intent());
    let (tx, _rx) = tokio::sync::mpsc::unbounded_channel();
    let io = bridge.make_adapter(test_geometry(), ServerChannelId(1), tx);
    bridge.handle_event(HandlerEvent::Signal(ServerChannelId(1), SignalKind::Quit), None);
    assert_eq!(io.handle_signals(), SignalOutcome::Quit);
    drop(bridge);
    assert_eq!(io.handle_signals(), SignalOutcome::Disconnected);
}

#[test]
fn stdin_poller_sees_queued_data() {
    let mut bridge = Session::new(fresh_intent());
    let (tx, _rx) = tokio::sync::mpsc::unbounded_channel();
    let io = bridge.make_adapter(test_geometry(), ServerChannelId(1), tx);
    let mut poller = io.stdin_poller();
    assert!(!poller.ready());
    bridge.handle_event(HandlerEvent::Data(ServerChannelId(1), vec![1]), None);
    assert!(poller.ready());
}

#[test]
fn raw_mode_calls_are_noops() {
    let bridge = Session::new(fresh_intent());
    let (tx, _rx) = tokio::sync::mpsc::unbounded_channel();
    let mut io = bridge.make_adapter(test_geometry(), ServerChannelId(1), tx);
    io.set_raw_mode();
    assert!(io.unset_raw_mode().is_ok());
    assert_eq!((io.win_size.ws_row, io.win_size.ws_col), (24, 80));
}

#[test]
fn engine_connect_succeeds_once_the_acceptor_listens() {
    // A fresh path each run: a socket file left by an interrupted run must
    // not block this one.
    let stamp = std::time::SystemTime::now()
        .duration_since(std::time::UNIX_EPOCH)
        .unwrap();
    let path = format!(
        "/tmp/zellij-sshd-accepting-{}-{}.sock",
        stamp.as_secs(),
        stamp.subsec_nanos()
    );
    let name = path.as_str().to_fs_name::<GenericFilePath>().unwrap();
    let _listener = ListenerOptions::new().name(name).create_sync().unwrap();

    let bridge = Session::new(fresh_intent());
    let (tx, _rx) = tokio::sync::mpsc::unbounded_channel();
    let mut io = bridge.make_adapter(test_geometry(), ServerChannelId(1), tx);
    assert!(io.server_connection.is_none());
    assert!(io.connect_to_server(path.as_str(), 3));
    assert!(io.server_connection.is_some());
}

#[test]
fn engine_connect_reports_exhausted_attempts() {
    let bridge = Session::new(fresh_intent());
    let (tx, _rx) = tokio::sync::mpsc::unbounded_channel();
    let mut io = bridge.make_adapter(test_geometry(), ServerChannelId(1), tx);
    assert!(!io.connect_to_server("/tmp/zellij_sshd_nobody_listens.sock", 2));
    assert!(io.server_connection.is_none());
}
