use rscom::err::RSComError;
use rscom::serial::{list_serial_ports, Baudrate};
use rscom::session::{ConnectionConfig, ConnectionState, OpenRequest, Session, EMPTY_PORT_REASON};

fn config(port: &str, baudrate: Baudrate) -> ConnectionConfig {
    ConnectionConfig { port: port.to_string(), baudrate }
}

fn connected(port: &str) -> Session {
    let mut session = Session::default();
    session.connect(config(port, Baudrate::Baud115200)).unwrap();
    session.on_open(Ok(())).unwrap();
    assert_eq!(session.current_state(), ConnectionState::Connected);
    session
}

#[test]
fn a_new_session_is_disconnected_and_empty() {
    let session = Session::new(config("COM4", Baudrate::Baud57600));
    assert_eq!(session.current_state(), ConnectionState::Disconnected);
    assert!(!session.holds_handle());
    assert!(session.output_log().is_empty());
    assert!(session.pending_write().is_empty());
    assert_eq!(session.config(), &config("COM4", Baudrate::Baud57600));
}

#[test]
fn the_default_session_has_the_default_config() {
    let session = Session::default();
    assert_eq!(session.current_state(), ConnectionState::Disconnected);
    assert_eq!(session.config(), &ConnectionConfig::default());
    assert_eq!(session.config().port, "");
    assert_eq!(session.config().baudrate, Baudrate::Baud115200);
}

#[test]
fn connect_asks_the_driver_to_open_the_port() {
    let mut session = Session::default();
    let asked = session.connect(config("/dev/ttyUSB0", Baudrate::Baud9600));
    assert_eq!(asked, Ok(OpenRequest { port: "/dev/ttyUSB0".to_string(), baud: 9600 }));
    assert_eq!(session.current_state(), ConnectionState::Connecting);
    assert!(!session.holds_handle());
    assert_eq!(session.config(), &config("/dev/ttyUSB0", Baudrate::Baud9600));
}

#[test]
fn connect_does_not_ask_whether_the_port_exists() {
    let ports = list_serial_ports(Ok(vec!["COM1".to_string()])).unwrap();
    assert!(ports.iter().all(|port| port.port_name != "COM77"));
    let mut session = Session::default();
    let asked = session.connect(config("COM77", Baudrate::Baud1000000));
    assert_eq!(asked, Ok(OpenRequest { port: "COM77".to_string(), baud: 1000000 }));
    assert_eq!(session.current_state(), ConnectionState::Connecting);
}

#[test]
fn connect_without_a_port_fails_at_once() {
    let mut session = Session::default();
    let asked = session.connect(config("", Baudrate::Baud115200));
    assert_eq!(asked, Err(RSComError::ConnectionOpenError(EMPTY_PORT_REASON.to_string())));
    assert_eq!(session.current_state(), ConnectionState::Failed(EMPTY_PORT_REASON.to_string()));
    assert_ne!(session.current_state(), ConnectionState::Connecting);
    assert!(!session.holds_handle());
}

#[test]
fn a_late_open_report_does_not_revive_a_failed_attempt() {
    let mut session = Session::default();
    assert!(session.connect(config("", Baudrate::Baud9600)).is_err());
    assert_eq!(session.on_open(Ok(())), Ok(()));
    assert_eq!(session.current_state(), ConnectionState::Failed(EMPTY_PORT_REASON.to_string()));
    assert!(!session.holds_handle());
}

#[test]
fn connect_without_a_port_still_records_the_config() {
    let mut session = Session::new(config("COM2", Baudrate::Baud9600));
    assert!(session.connect(config("", Baudrate::Baud38400)).is_err());
    assert_eq!(session.config(), &config("", Baudrate::Baud38400));
}

#[test]
fn a_successful_open_brings_the_link_up() {
    let mut session = Session::default();
    session.connect(config("COM3", Baudrate::Baud115200)).unwrap();
    assert_eq!(session.on_open(Ok(())), Ok(()));
    assert_eq!(session.current_state(), ConnectionState::Connected);
    assert!(session.holds_handle());
    assert!(session.output_log().is_empty());
}

#[test]
fn a_failed_open_surfaces_the_reason_verbatim() {
    let mut session = Session::default();
    session.connect(config("COM3", Baudrate::Baud115200)).unwrap();
    let report = session.on_open(Err("Access is denied. (os error 5)".to_string()));
    assert_eq!(
        report,
        Err(RSComError::ConnectionOpenError("Access is denied. (os error 5)".to_string()))
    );
    assert_eq!(
        session.current_state(),
        ConnectionState::Failed("Access is denied. (os error 5)".to_string())
    );
    assert!(!session.holds_handle());
}

#[test]
fn a_fresh_attempt_clears_the_failure() {
    let mut session = Session::default();
    session.connect(config("COM3", Baudrate::Baud115200)).unwrap();
    assert!(session.on_open(Err("busy".to_string())).is_err());
    assert_eq!(session.current_state(), ConnectionState::Failed("busy".to_string()));
    let asked = session.connect(config("COM3", Baudrate::Baud19200));
    assert_eq!(asked, Ok(OpenRequest { port: "COM3".to_string(), baud: 19200 }));
    assert_eq!(session.current_state(), ConnectionState::Connecting);
    session.on_open(Ok(())).unwrap();
    assert_eq!(session.current_state(), ConnectionState::Connected);
}

#[test]
fn open_reports_are_ignored_unless_connecting() {
    let mut session = Session::default();
    assert_eq!(session.on_open(Ok(())), Ok(()));
    assert_eq!(session.current_state(), ConnectionState::Disconnected);
    assert_eq!(session.on_open(Err("late".to_string())), Ok(()));
    assert_eq!(session.current_state(), ConnectionState::Disconnected);

    let mut up = connected("COM3");
    up.on_read(Ok(b"kept")).unwrap();
    assert_eq!(up.on_open(Ok(())), Ok(()));
    assert_eq!(up.on_open(Err("late".to_string())), Ok(()));
    assert_eq!(up.current_state(), ConnectionState::Connected);
    assert_eq!(up.output_log(), b"kept");
}

#[test]
fn disconnect_without_a_link_is_a_no_op() {
    let mut session = Session::new(config("COM5", Baudrate::Baud38400));
    session.disconnect();
    assert_eq!(session.current_state(), ConnectionState::Disconnected);
    session.disconnect();
    assert_eq!(session.current_state(), ConnectionState::Disconnected);
    assert_eq!(session.config(), &config("COM5", Baudrate::Baud38400));
    assert!(session.output_log().is_empty());
    assert!(!session.holds_handle());
}

#[test]
fn disconnect_releases_the_link_and_keeps_the_log() {
    let mut session = connected("COM3");
    session.on_read(Ok(b"boot ok\r\n")).unwrap();
    assert!(session.send(b"never sent"));
    session.disconnect();
    assert_eq!(session.current_state(), ConnectionState::Disconnected);
    assert!(!session.holds_handle());
    assert_eq!(session.output_log(), b"boot ok\r\n");
    assert!(session.pending_write().is_empty());
}

#[test]
fn disconnect_abandons_an_attempt_under_way() {
    let mut session = Session::default();
    session.connect(config("COM3", Baudrate::Baud115200)).unwrap();
    session.disconnect();
    assert_eq!(session.current_state(), ConnectionState::Disconnected);
    assert_eq!(session.on_open(Ok(())), Ok(()));
    assert_eq!(session.current_state(), ConnectionState::Disconnected);
    assert!(!session.holds_handle());
}

#[test]
fn the_log_of_the_previous_session_is_cleared_by_the_next_link() {
    let mut session = connected("COM3");
    session.on_read(Ok(b"first session")).unwrap();
    session.disconnect();
    assert_eq!(session.output_log(), b"first session");
    session.connect(config("COM3", Baudrate::Baud115200)).unwrap();
    assert_eq!(session.output_log(), b"first session");
    session.on_open(Ok(())).unwrap();
    assert_eq!(session.current_state(), ConnectionState::Connected);
    assert!(session.output_log().is_empty());
}

#[test]
fn a_failed_attempt_does_not_clear_the_log() {
    let mut session = connected("COM3");
    session.on_read(Ok(b"still here")).unwrap();
    session.disconnect();
    session.connect(config("COM3", Baudrate::Baud115200)).unwrap();
    assert!(session.on_open(Err("not found".to_string())).is_err());
    assert_eq!(session.output_log(), b"still here");
    assert!(session.connect(config("", Baudrate::Baud115200)).is_err());
    assert_eq!(session.output_log(), b"still here");
}

#[test]
fn connecting_again_abandons_the_link_that_is_up() {
    let mut session = connected("COM3");
    assert!(session.send(b"queued"));
    let asked = session.connect(config("COM4", Baudrate::Baud9600));
    assert_eq!(asked, Ok(OpenRequest { port: "COM4".to_string(), baud: 9600 }));
    assert_eq!(session.current_state(), ConnectionState::Connecting);
    assert!(!session.holds_handle());
    assert!(session.pending_write().is_empty());
}

#[test]
fn reads_append_to_the_log_in_order() {
    let mut session = connected("COM3");
    assert_eq!(session.on_read(Ok(b"OK")), Ok(()));
    assert_eq!(session.on_read(Ok(b"\r\n")), Ok(()));
    assert_eq!(session.on_read(Ok(b"READY")), Ok(()));
    assert_eq!(session.output_log(), b"OK\r\nREADY");
}

#[test]
fn a_read_of_no_bytes_is_not_an_error() {
    let mut session = connected("COM3");
    session.on_read(Ok(b"abc")).unwrap();
    assert_eq!(session.on_read(Ok(b"")), Ok(()));
    assert_eq!(session.current_state(), ConnectionState::Connected);
    assert_eq!(session.output_log(), b"abc");
}

#[test]
fn a_read_fault_fails_the_session() {
    let mut session = connected("COM3");
    session.on_read(Ok(b"partial")).unwrap();
    assert!(session.send(b"pending"));
    let report = session.on_read(Err("device unplugged".to_string()));
    assert_eq!(report, Err(RSComError::IoFault("device unplugged".to_string())));
    assert_eq!(session.current_state(), ConnectionState::Failed("device unplugged".to_string()));
    assert!(!session.holds_handle());
    assert!(session.pending_write().is_empty());
    assert_eq!(session.output_log(), b"partial");
}

#[test]
fn a_write_fault_fails_the_session() {
    let mut session = connected("COM3");
    assert!(session.send(b"AT+RST\r\n"));
    assert_eq!(session.on_write(Ok(3)), Ok(()));
    let report = session.on_write(Err("broken pipe".to_string()));
    assert_eq!(report, Err(RSComError::IoFault("broken pipe".to_string())));
    assert_eq!(session.current_state(), ConnectionState::Failed("broken pipe".to_string()));
    assert!(!session.holds_handle());
    assert!(session.pending_write().is_empty());
}

#[test]
fn after_a_fault_reads_produce_nothing() {
    let mut session = connected("COM3");
    session.on_read(Ok(b"before")).unwrap();
    assert!(session.on_read(Err("io fault".to_string())).is_err());
    assert_eq!(session.on_read(Ok(b"stale")), Ok(()));
    assert_eq!(session.output_log(), b"before");
    assert_eq!(session.on_read(Err("again".to_string())), Ok(()));
    assert_eq!(session.on_write(Err("again".to_string())), Ok(()));
    assert_eq!(session.on_write(Ok(5)), Ok(()));
    assert!(!session.send(b"refused"));
    assert!(session.pending_write().is_empty());
    assert_eq!(session.current_state(), ConnectionState::Failed("io fault".to_string()));
}

#[test]
fn a_session_recovers_from_a_fault_by_a_fresh_connect() {
    let mut session = connected("COM3");
    assert!(session.on_read(Err("io fault".to_string())).is_err());
    session.connect(config("COM3", Baudrate::Baud115200)).unwrap();
    session.on_open(Ok(())).unwrap();
    assert_eq!(session.current_state(), ConnectionState::Connected);
    assert!(session.holds_handle());
    assert!(session.output_log().is_empty());
}

#[test]
fn send_is_refused_without_a_link() {
    let mut session = Session::default();
    assert!(!session.send(b"hello"));
    assert!(session.pending_write().is_empty());
    session.connect(config("COM3", Baudrate::Baud115200)).unwrap();
    assert!(!session.send(b"hello"));
    assert!(session.pending_write().is_empty());
    assert_eq!(session.current_state(), ConnectionState::Connecting);
}

#[test]
fn a_payload_is_written_once_and_in_order() {
    let mut session = connected("COM3");
    assert!(session.send(b"AT\r\n"));
    assert_eq!(session.pending_write(), b"AT\r\n");
    assert_eq!(session.on_write(Ok(4)), Ok(()));
    assert!(session.pending_write().is_empty());
    assert_eq!(session.current_state(), ConnectionState::Connected);
}

#[test]
fn a_partial_write_leaves_the_rest_for_the_next_attempt() {
    let mut session = connected("COM3");
    assert!(session.send(b"0123456789"));
    let mut on_the_wire: Vec<u8> = Vec::new();
    for taken in [3usize, 0, 1, 6] {
        let offered = session.pending_write().to_vec();
        on_the_wire.extend_from_slice(&offered[..taken]);
        assert_eq!(session.on_write(Ok(taken)), Ok(()));
    }
    assert_eq!(on_the_wire, b"0123456789");
    assert!(session.pending_write().is_empty());
}

#[test]
fn a_write_report_beyond_what_waited_takes_it_all() {
    let mut session = connected("COM3");
    assert!(session.send(b"abc"));
    assert_eq!(session.on_write(Ok(usize::MAX)), Ok(()));
    assert!(session.pending_write().is_empty());
    assert_eq!(session.on_write(Ok(1)), Ok(()));
    assert!(session.pending_write().is_empty());
    assert_eq!(session.current_state(), ConnectionState::Connected);
}

#[test]
fn payloads_do_not_interleave() {
    let mut session = connected("COM3");
    assert!(session.send(b"first;"));
    assert_eq!(session.on_write(Ok(2)), Ok(()));
    assert!(session.send(b"second;"));
    assert!(session.send(b""));
    assert!(session.send(b"third"));
    assert_eq!(session.pending_write(), b"rst;second;third");
}

#[test]
fn write_reports_are_ignored_without_a_link() {
    let mut session = Session::default();
    assert_eq!(session.on_write(Ok(10)), Ok(()));
    assert_eq!(session.on_write(Err("late".to_string())), Ok(()));
    assert_eq!(session.on_read(Ok(b"late")), Ok(()));
    assert_eq!(session.on_read(Err("late".to_string())), Ok(()));
    assert_eq!(session.current_state(), ConnectionState::Disconnected);
    assert!(session.output_log().is_empty());
}

#[test]
fn states_clone_to_equal_values() {
    let failed = ConnectionState::Failed("why".to_string());
    assert_eq!(failed.clone(), failed);
    assert_eq!(ConnectionState::Connected.clone(), ConnectionState::Connected);
    assert_ne!(failed, ConnectionState::Failed("other".to_string()));
    let cfg = config("COM1", Baudrate::Baud460800);
    assert_eq!(cfg.clone(), cfg);
}

#[test]
fn connect_send_and_unplug_from_end_to_end() {
    let ports = list_serial_ports(Ok(vec!["COM1".to_string(), "COM3".to_string()])).unwrap();
    let names: Vec<&str> = ports.iter().map(|port| port.port_name.as_str()).collect();
    assert_eq!(names, vec!["COM1", "COM3"]);

    let mut session = Session::default();
    let asked = session.connect(config("COM3", Baudrate::Baud115200));
    assert_eq!(asked, Ok(OpenRequest { port: "COM3".to_string(), baud: 115200 }));
    assert_eq!(session.on_open(Ok(())), Ok(()));
    assert_eq!(session.current_state(), ConnectionState::Connected);

    assert!(session.send(b"AT\r\n"));
    assert_eq!(session.pending_write(), &[0x41, 0x54, 0x0d, 0x0a]);
    assert_eq!(session.on_write(Ok(4)), Ok(()));
    assert!(session.pending_write().is_empty());

    let report = session.on_read(Err("io fault".to_string()));
    assert_eq!(report, Err(RSComError::IoFault("io fault".to_string())));
    assert_eq!(session.current_state(), ConnectionState::Failed("io fault".to_string()));

    session.disconnect();
    assert_eq!(session.current_state(), ConnectionState::Failed("io fault".to_string()));
    assert!(!session.holds_handle());
}

#[test]
fn an_empty_port_is_refused_whatever_the_rate() {
    for rate in Baudrate::all() {
        let mut session = Session::default();
        let asked = session.connect(ConnectionConfig { port: String::new(), baudrate: rate });
        assert!(matches!(asked, Err(RSComError::ConnectionOpenError(_))));
        assert!(matches!(session.current_state(), ConnectionState::Failed(_)));
    }
}

#[test]
fn the_reason_for_an_empty_port() {
    assert_eq!(EMPTY_PORT_REASON, "no serial port selected");
    let mut session = connected("COM3");
    session.on_read(Ok(b"kept")).unwrap();
    let asked = session.connect(config("", Baudrate::Baud9600));
    assert_eq!(asked.unwrap_err().reason(), "no serial port selected");
    assert_eq!(
        session.current_state(),
        ConnectionState::Failed("no serial port selected".to_string())
    );
    assert!(!session.holds_handle());
    assert_eq!(session.output_log(), b"kept");
}
