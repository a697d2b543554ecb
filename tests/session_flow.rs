use uart_session::action::{Action, Mode};
use uart_session::components::{CommandInputComponent, ListComponent, ListKind, ReceiveComponent};
use uart_session::engine::{App, Effect};
use uart_session::key::Key;
use uart_session::receive_text::ReceiveTextState;
use uart_session::session::{parse_rate, ReadOutcome, Session, DEFAULT_BAUD_RATE};

fn ports(v: &[&str]) -> Vec<String> {
    v.iter().map(|s| s.to_string()).collect()
}

fn type_line(app: &mut App<u32>, line: &str) -> Effect {
    for ch in line.chars() {
        app.process_key(Key::Char(ch));
    }
    app.process_key(Key::Enter)
}

fn choose_second_port_and_rate(app: &mut App<u32>) {
    type_line(app, "c");
    app.process_key(Key::Down);
    app.process_key(Key::Enter);
    type_line(app, "r");
    app.process_key(Key::Down);
    app.process_key(Key::Enter);
}

#[test]
fn rate_labels() {
    assert_eq!(parse_rate("115200"), Some(115200));
    assert_eq!(parse_rate("9600"), Some(9600));
    assert_eq!(parse_rate("4294967295"), Some(u32::MAX));
    assert_eq!(parse_rate("4294967296"), None);
    assert_eq!(parse_rate("99999999999999999999"), None);
    assert_eq!(parse_rate(""), None);
    assert_eq!(parse_rate("12a"), None);
    assert_eq!(parse_rate("+1"), Some(1));
    assert_eq!(parse_rate("+9600"), Some(9600));
    assert_eq!(parse_rate("+"), None);
    assert_eq!(parse_rate("-1"), None);
    assert_eq!(parse_rate("++1"), None);
}

#[test]
fn session_starts_disconnected() {
    let s: Session<u32> = Session::new();
    assert!(!s.is_connected());
    assert_eq!(s.port_name(), "");
    assert_eq!(s.baud_rate(), DEFAULT_BAUD_RATE);
    assert_eq!(s.receive_state().content(), "");
}

#[test]
fn bad_rate_label_keeps_rate() {
    let mut s: Session<u32> = Session::new();
    assert!(s.select_rate("+19200"));
    assert_eq!(s.baud_rate(), 19200);
    assert!(s.select_rate("115200"));
    assert!(!s.select_rate("fast"));
    assert_eq!(s.baud_rate(), 115200);
}

#[test]
fn read_data_is_decoded_and_appended() {
    let mut s: Session<u32> = Session::new();
    s.finish_open(Some(7));
    assert!(!s.apply_read(ReadOutcome::Data(b"OK\r\n".to_vec())));
    assert!(!s.apply_read(ReadOutcome::Data("é".as_bytes().to_vec())));
    assert!(!s.apply_read(ReadOutcome::Data(Vec::new())));
    assert_eq!(s.receive_state().content(), "OK\r\né");
    assert_eq!(s.connection(), Some(&7));
}

#[test]
fn invalid_bytes_become_replacement_characters() {
    let mut s: Session<u32> = Session::new();
    s.finish_open(Some(1));
    s.apply_read(ReadOutcome::Data(vec![b'a', 0xff, b'b']));
    assert_eq!(s.receive_state().content(), "a\u{fffd}b");
}

#[test]
fn timeout_changes_nothing() {
    let mut s: Session<u32> = Session::new();
    s.finish_open(Some(3));
    s.apply_read(ReadOutcome::Data(b"x".to_vec()));
    assert!(!s.apply_read(ReadOutcome::TimedOut));
    assert_eq!(s.connection(), Some(&3));
    assert_eq!(s.receive_state().content(), "x");
}

#[test]
fn other_read_error_drops_connection() {
    let mut s: Session<u32> = Session::new();
    s.finish_open(Some(3));
    s.apply_read(ReadOutcome::Data(b"x".to_vec()));
    assert!(s.apply_read(ReadOutcome::Failed));
    assert_eq!(s.connection(), None);
    assert_eq!(s.receive_state().content(), "x");
    assert!(!s.apply_read(ReadOutcome::Data(b"y".to_vec())));
    assert_eq!(s.receive_state().content(), "x");
}

#[test]
fn open_uses_chosen_port_and_rate() {
    let mut app: App<u32> = App::new(ports(&["COM1", "COM3"]));
    choose_second_port_and_rate(&mut app);
    match type_line(&mut app, "o") {
        Effect::OpenPort(p, b) => {
            assert_eq!(p, "COM3");
            assert_eq!(b, 115200);
        }
        Effect::Nothing => panic!("no open requested"),
    }
    app.finish_open(Some(42));
    assert!(app.session().is_connected());
}

#[test]
fn failed_open_leaves_no_connection_and_no_error() {
    let mut app: App<u32> = App::new(ports(&["COM3"]));
    choose_second_port_and_rate(&mut app);
    assert!(matches!(type_line(&mut app, "o"), Effect::OpenPort(_, _)));
    app.finish_open(None);
    assert!(!app.session().is_connected());
    assert_eq!(app.last_error(), None);
    assert_eq!(app.mode(), Mode::CommandInput);
}

#[test]
fn choose_port_from_list() {
    let mut app: App<u32> = App::new(ports(&["COM1", "COM2", "COM3"]));
    assert_eq!(app.mode(), Mode::CommandInput);
    assert!(matches!(type_line(&mut app, "c"), Effect::Nothing));
    assert_eq!(app.mode(), Mode::UartChoice);
    let mut probe = ListComponent::new("Port".to_string(), ports(&["COM1", "COM2", "COM3"]), ListKind::PortSelection);
    assert!(matches!(probe.handle_key_events(Key::Down), Action::Nothing));
    assert_eq!(probe.state().selected(), Some(1));
    match probe.handle_key_events(Key::Enter) {
        Action::SelectPort(p) => assert_eq!(p, "COM2"),
        other => panic!("unexpected {:?}", other),
    }
    app.process_key(Key::Down);
    assert_eq!(app.uart_list().state().selected(), Some(1));
    app.process_key(Key::Enter);
    assert_eq!(app.session().port_name(), "COM2");
    assert_eq!(app.mode(), Mode::CommandInput);
}

#[test]
fn choose_rate_from_list() {
    let mut app: App<u32> = App::new(Vec::new());
    type_line(&mut app, "r");
    assert_eq!(app.mode(), Mode::RateChoice);
    app.process_key(Key::Up);
    app.process_key(Key::Enter);
    assert_eq!(app.session().baud_rate(), 115200);
    assert_eq!(app.mode(), Mode::CommandInput);
}

#[test]
fn quit_from_every_mode() {
    for setup in ["", "c", "r"] {
        let mut app: App<u32> = App::new(ports(&["COM1"]));
        if !setup.is_empty() {
            type_line(&mut app, setup);
        }
        app.process_key(Key::Esc);
        assert_eq!(app.mode(), Mode::CommandInput);
        assert!(!app.should_quit());
        type_line(&mut app, "q");
        assert!(app.should_quit());
    }
}

#[test]
fn cancel_key_bypasses_panels() {
    let mut app: App<u32> = App::new(ports(&["COM1", "COM2"]));
    type_line(&mut app, "c");
    app.process_key(Key::Esc);
    assert_eq!(app.mode(), Mode::CommandInput);
    assert_eq!(app.uart_list().state().selected(), Some(0));
    app.process_key(Key::Char('x'));
    app.process_key(Key::Esc);
    assert_eq!(app.input().state().value(), "x");
}

#[test]
fn parse_errors_are_recorded() {
    let mut app: App<u32> = App::new(Vec::new());
    type_line(&mut app, "zap");
    assert_eq!(app.last_error(), Some("unknown command: zap"));
    type_line(&mut app, "x \"y");
    assert_eq!(app.last_error(), Some("Unclosed quote"));
    assert_eq!(app.mode(), Mode::CommandInput);
    assert!(!app.should_quit());
}

#[test]
fn refresh_ports_keeps_selection() {
    let mut app: App<u32> = App::new(ports(&["A", "B", "C"]));
    type_line(&mut app, "c");
    app.process_key(Key::Up);
    app.refresh_ports(ports(&["A"]));
    assert_eq!(app.uart_list().state().selected(), Some(2));
    app.process_key(Key::Enter);
    assert_eq!(app.mode(), Mode::UartChoice);
    app.process_key(Key::Down);
    app.process_key(Key::Enter);
    assert_eq!(app.session().port_name(), "A");
}

#[test]
fn focus_follows_mode() {
    let mut app: App<u32> = App::new(ports(&["A"]));
    app.sync_focus();
    assert!(app.input().state().is_focused());
    assert!(!app.uart_list().state().is_focused());
    type_line(&mut app, "r");
    app.sync_focus();
    assert!(app.rate_list().state().is_focused());
    assert!(!app.input().state().is_focused());
}

#[test]
fn panels_start_empty() {
    let c = CommandInputComponent::new();
    assert_eq!(c.state().value(), "");
    let mut r = ReceiveComponent::new();
    assert!(matches!(r.handle_key_events(Key::Enter), Action::Nothing));
    assert_eq!(r.state().content(), "");
    let mut t = ReceiveTextState::new();
    t.append_text("ab");
    t.set_scroll(3);
    assert_eq!(t.content(), "ab");
    assert_eq!(t.scroll(), 3);
}

#[test]
fn zero_bytes_change_nothing() {
    let mut s: Session<u32> = Session::new();
    s.finish_open(Some(5));
    s.apply_read(ReadOutcome::Data(b"ab".to_vec()));
    assert!(!s.apply_read(ReadOutcome::Data(Vec::new())));
    assert_eq!(s.receive_state().content(), "ab");
    assert_eq!(s.connection(), Some(&5));
}

#[test]
fn empty_line_is_an_empty_command() {
    let mut app: App<u32> = App::new(Vec::new());
    assert!(matches!(app.process_key(Key::Enter), Effect::Nothing));
    assert_eq!(app.last_error(), Some("Empty command"));
    type_line(&mut app, "   ");
    assert_eq!(app.last_error(), Some("Empty command"));
    let mut c = CommandInputComponent::new();
    match c.handle_key_events(Key::Enter) {
        Action::Error(m) => assert_eq!(m, "Empty command"),
        other => panic!("unexpected {:?}", other),
    }
}

#[test]
fn starting_selections() {
    let app: App<u32> = App::new(ports(&["A", "B"]));
    assert_eq!(app.uart_list().state().selected(), Some(0));
    assert_eq!(app.rate_list().state().selected(), Some(0));
    assert_eq!(app.rate_list().state().items(), &["9600".to_string(), "115200".to_string()]);
    let app: App<u32> = App::new(Vec::new());
    assert_eq!(app.uart_list().state().selected(), None);
}

#[test]
fn reads_leave_panels_and_error_line_alone() {
    let mut app: App<u32> = App::new(ports(&["A"]));
    type_line(&mut app, "zz");
    app.process_key(Key::Char('k'));
    app.finish_open(Some(9));
    assert!(!app.apply_read(ReadOutcome::TimedOut));
    assert_eq!(app.session().connection(), Some(&9));
    if let Some(h) = app.connection_mut() {
        *h += 1;
    }
    assert_eq!(app.session().connection(), Some(&10));
    assert!(app.apply_read(ReadOutcome::Failed));
    assert_eq!(app.session().connection(), None);
    assert_eq!(app.last_error(), Some("unknown command: zz"));
    assert_eq!(app.input().state().value(), "k");
    assert_eq!(app.mode(), Mode::CommandInput);
}
