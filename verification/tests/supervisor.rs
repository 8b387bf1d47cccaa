use jshell::chat::statement_of;
use jshell::handshake::directives;
use jshell::supervisor::{NEWLINE, TURN_DEADLINE_SECS};
use jshell::{
    IoErrorKind, JShell, JShellError, Phase, StreamEvent, Supervisor, TurnError, TurnEvent,
};

fn out(text: &str) -> TurnEvent {
    TurnEvent::Stream(StreamEvent::Line(Ok(Some(text.to_string()))))
}

fn end_of_turn() -> TurnEvent {
    TurnEvent::Stream(StreamEvent::Marker(Ok(vec![0])))
}

fn handshaken() -> JShell {
    let mut driver = JShell::new();
    driver.spawned(Ok(())).unwrap();
    for directive in directives() {
        driver.input(directive);
        driver.written(Ok(())).unwrap();
    }
    assert_eq!(
        driver.discard_welcome(StreamEvent::Line(Ok(Some("|  Welcome to JShell".to_string())))),
        Ok(false)
    );
    assert_eq!(driver.discard_welcome(StreamEvent::Marker(Ok(vec![0]))), Ok(true));
    driver
}

/// Runs one turn that the child completes and hands back the reply.
fn complete_turn(supervisor: &mut Supervisor, stmt: &str, lines: &[&str]) -> String {
    let bytes = supervisor.begin_turn(stmt);
    let mut expected = stmt.as_bytes().to_vec();
    expected.push(b'\n');
    assert_eq!(bytes, expected);
    assert_eq!(supervisor.written(Ok(())), Ok(()));
    for l in lines {
        assert_eq!(supervisor.on_event(out(l)), None);
    }
    match supervisor.on_event(end_of_turn()) {
        Some(Ok(reply)) => reply,
        other => panic!("turn did not complete: {:?}", other),
    }
}

#[test]
fn deadline_is_five_seconds() {
    assert_eq!(TURN_DEADLINE_SECS, 5);
}

#[test]
fn statement_ends_with_one_newline() {
    let mut supervisor = Supervisor::new(handshaken());
    let bytes = supervisor.begin_turn("1 + 1");
    assert_eq!(bytes, b"1 + 1\n".to_vec());
    assert_eq!(*bytes.last().unwrap(), NEWLINE);
    assert_eq!(supervisor.driver().phase(), Phase::AwaitingInput);
}

#[test]
fn simple_expression() {
    let mut supervisor = Supervisor::new(handshaken());
    let reply = complete_turn(&mut supervisor, "1 + 1", &["$1 ==> 2"]);
    assert!(reply.contains("2"));
    assert_eq!(reply, "$1 ==> 2");
    assert_eq!(supervisor.driver().phase(), Phase::Idle);
}

#[test]
fn declaration_then_use() {
    let mut supervisor = Supervisor::new(handshaken());
    let first = complete_turn(&mut supervisor, "int x = 41;", &["x ==> 41"]);
    assert_eq!(first, "x ==> 41");
    let second = complete_turn(&mut supervisor, "x + 1", &["$2 ==> 42"]);
    assert!(second.contains("42"));
    assert!(!second.contains("41"));
}

#[test]
fn infinite_loop_times_out_and_is_revived() {
    let mut supervisor = Supervisor::new(handshaken());
    supervisor.begin_turn("while(true){}");
    supervisor.written(Ok(())).unwrap();
    let outcome = supervisor.on_event(TurnEvent::DeadlinePassed);
    assert_eq!(outcome, Some(Err(TurnError::TimeoutError)));
    assert!(TurnError::TimeoutError.needs_revive());
    assert_ne!(supervisor.driver().phase(), Phase::Idle);

    supervisor.revive(handshaken());
    assert_eq!(supervisor.driver().phase(), Phase::Idle);
    let reply = complete_turn(&mut supervisor, "1", &["$1 ==> 1"]);
    assert!(reply.contains("1"));
}

#[test]
fn timeout_drops_partial_output() {
    let mut supervisor = Supervisor::new(handshaken());
    supervisor.begin_turn("while(true){System.out.println(7);}");
    supervisor.written(Ok(())).unwrap();
    assert_eq!(supervisor.on_event(out("7")), None);
    assert_eq!(supervisor.on_event(out("7")), None);
    assert_eq!(supervisor.on_event(TurnEvent::DeadlinePassed), Some(Err(TurnError::TimeoutError)));
    assert_eq!(supervisor.driver().pending(), "");
    assert_eq!(supervisor.driver().phase(), Phase::Draining);
}

#[test]
fn syntax_error_keeps_the_next_turn_aligned() {
    let mut supervisor = Supervisor::new(handshaken());
    let first = complete_turn(
        &mut supervisor,
        "int ;",
        &["|  Error:", "|  not a statement", "|  int ;", "|  ^-^"],
    );
    assert_eq!(first, "|  Error:|  not a statement|  int ;|  ^-^");
    let second = complete_turn(&mut supervisor, "1 + 1", &["$1 ==> 2"]);
    assert_eq!(second, "$1 ==> 2");
}

#[test]
fn syntax_error_with_no_normal_output() {
    let mut supervisor = Supervisor::new(handshaken());
    let first = complete_turn(&mut supervisor, "int ;", &[]);
    assert_eq!(first, "");
    let second = complete_turn(&mut supervisor, "2", &["$1 ==> 2"]);
    assert_eq!(second, "$1 ==> 2");
}

#[test]
fn child_killed_mid_turn_closes_and_is_revived() {
    let mut supervisor = Supervisor::new(handshaken());
    supervisor.begin_turn("Thread.sleep(100000)");
    supervisor.written(Ok(())).unwrap();
    let outcome = supervisor.on_event(TurnEvent::Stream(StreamEvent::Line(Ok(None))));
    let failure = match outcome {
        Some(Err(e)) => e,
        other => panic!("expected a failure, got {:?}", other),
    };
    assert_eq!(failure, TurnError::JShellError(JShellError::ClosedError));
    assert!(failure.needs_revive());
    assert!(supervisor.driver().is_dead());

    supervisor.revive(handshaken());
    assert!(!supervisor.driver().is_dead());
    assert_eq!(complete_turn(&mut supervisor, "1", &["$1 ==> 1"]), "$1 ==> 1");
}

#[test]
fn child_killed_mid_turn_breaks_the_pipe() {
    let mut supervisor = Supervisor::new(handshaken());
    supervisor.begin_turn("1");
    let written = supervisor.written(Err(IoErrorKind::BrokenPipe));
    let failure = written.unwrap_err();
    assert_eq!(failure, TurnError::JShellError(JShellError::IOError(IoErrorKind::BrokenPipe)));
    assert!(failure.needs_revive());
    assert!(supervisor.driver().is_dead());
}

#[test]
fn statement_with_curly_quotes() {
    let stmt = statement_of("jshell> String s = \u{201E}hi\u{201C};").unwrap();
    assert_eq!(stmt, "String s = \"hi\";");
    let mut supervisor = Supervisor::new(handshaken());
    let bytes = supervisor.begin_turn(&stmt);
    assert_eq!(bytes, b"String s = \"hi\";\n".to_vec());
}

#[test]
fn core_does_not_touch_curly_quotes() {
    let mut supervisor = Supervisor::new(handshaken());
    let bytes = supervisor.begin_turn("\u{201E}hi\u{201C}");
    assert_eq!(bytes, vec![0xE2, 0x80, 0x9E, b'h', b'i', 0xE2, 0x80, 0x9C, b'\n']);
}

#[test]
fn one_reply_per_sentinel() {
    let mut supervisor = Supervisor::new(handshaken());
    supervisor.begin_turn("1");
    supervisor.written(Ok(())).unwrap();
    let events = vec![out("a"), out("b"), end_of_turn()];
    let mut replies = Vec::new();
    for event in events {
        if let Some(outcome) = supervisor.on_event(event) {
            replies.push(outcome);
        }
    }
    assert_eq!(replies, vec![Ok("ab".to_string())]);
}

#[test]
fn second_wait_without_statement_ends_by_deadline() {
    let mut supervisor = Supervisor::new(handshaken());
    assert_eq!(complete_turn(&mut supervisor, "1", &["$1 ==> 1"]), "$1 ==> 1");
    // The child is quiet now: the only thing a second wait can observe is the deadline.
    assert_eq!(supervisor.on_event(TurnEvent::DeadlinePassed), Some(Err(TurnError::TimeoutError)));
}

#[test]
fn reply_holds_nothing_of_the_turn_before() {
    let mut supervisor = Supervisor::new(handshaken());
    let first = complete_turn(&mut supervisor, "\"first\"", &["$1 ==> \"first\""]);
    let second = complete_turn(&mut supervisor, "\"second\"", &["$2 ==> \"second\""]);
    assert_eq!(first, "$1 ==> \"first\"");
    assert_eq!(second, "$2 ==> \"second\"");
    assert!(!second.contains("first"));
}

#[test]
fn reply_comes_before_the_next_statement_is_handed_out() {
    let mut supervisor = Supervisor::new(handshaken());
    let mut log: Vec<String> = Vec::new();
    for (stmt, answer) in [("s1", "o1"), ("s2", "o2")] {
        let bytes = supervisor.begin_turn(stmt);
        log.push(format!("write {}", String::from_utf8(bytes).unwrap().trim_end()));
        supervisor.written(Ok(())).unwrap();
        assert_eq!(supervisor.on_event(out(answer)), None);
        if let Some(Ok(reply)) = supervisor.on_event(end_of_turn()) {
            log.push(format!("reply {}", reply));
        }
    }
    assert_eq!(log, vec!["write s1", "reply o1", "write s2", "reply o2"]);
}

#[test]
fn revival_forgets_the_old_driver() {
    let mut stuck = Supervisor::new(handshaken());
    stuck.begin_turn("int x = 41;");
    stuck.written(Ok(())).unwrap();
    assert_eq!(stuck.on_event(out("x ==")), None);
    assert_eq!(stuck.on_event(TurnEvent::DeadlinePassed), Some(Err(TurnError::TimeoutError)));
    stuck.revive(handshaken());

    let mut dead = Supervisor::new(handshaken());
    let _ = dead.on_event(TurnEvent::Stream(StreamEvent::Marker(Ok(Vec::new()))));
    assert!(dead.driver().is_dead());
    dead.revive(handshaken());

    let mut untouched = Supervisor::new(handshaken());
    for supervisor in [&mut stuck, &mut dead, &mut untouched] {
        assert_eq!(supervisor.driver().phase(), Phase::Idle);
        assert_eq!(supervisor.driver().pending(), "");
        assert_eq!(complete_turn(supervisor, "x", &["|  Error: cannot find symbol"]),
            "|  Error: cannot find symbol");
    }
}

#[test]
fn bad_encoding_is_reported_without_revival() {
    let mut supervisor = Supervisor::new(handshaken());
    supervisor.begin_turn("1");
    supervisor.written(Ok(())).unwrap();
    let outcome = supervisor.on_event(TurnEvent::Stream(StreamEvent::Marker(Ok(vec![0xFF, 0]))));
    assert_eq!(outcome, Some(Err(TurnError::JShellError(JShellError::UnexpectedOutputError))));
    assert!(!TurnError::JShellError(JShellError::UnexpectedOutputError).needs_revive());
}

#[test]
fn generic_write_failure_ends_the_turn_without_revival() {
    let mut supervisor = Supervisor::new(handshaken());
    supervisor.begin_turn("1");
    let failure = supervisor.written(Err(IoErrorKind::Interrupted)).unwrap_err();
    assert_eq!(failure, TurnError::JShellError(JShellError::IOError(IoErrorKind::Interrupted)));
    assert!(!failure.needs_revive());
}

#[test]
fn child_killed_with_unterminated_error_text() {
    for left_over in [Vec::new(), b"oops".to_vec(), vec![0x6F]] {
        let mut supervisor = Supervisor::new(handshaken());
        supervisor.begin_turn("Thread.sleep(100000)");
        supervisor.written(Ok(())).unwrap();
        assert_eq!(supervisor.on_event(out("half a line")), None);
        let outcome = supervisor.on_event(TurnEvent::Stream(StreamEvent::Marker(Ok(left_over))));
        assert_eq!(outcome, Some(Err(TurnError::JShellError(JShellError::ClosedError))));
        assert!(supervisor.driver().is_dead());
        assert!(TurnError::JShellError(JShellError::ClosedError).needs_revive());

        supervisor.revive(handshaken());
        assert_eq!(complete_turn(&mut supervisor, "1", &["$1 ==> 1"]), "$1 ==> 1");
    }
}
