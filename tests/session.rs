use gpt_cli::session::{classify, classify_line, Action, Event, LineKind, Session};
use gpt_cli::turn::ChatError;

/// What a simulated run did.
struct Trace {
    reads: usize,
    sent: Vec<String>,
    replies: Vec<String>,
    errors: usize,
    echoed: Vec<String>,
    failed: bool,
}

/// Drives a session with scripted input lines and scripted exchange outcomes.
fn drive(mut s: Session, lines: &[&str], mut outcomes: Vec<Result<String, ChatError>>) -> Trace {
    let mut t = Trace { reads: 0, sent: vec![], replies: vec![], errors: 0, echoed: vec![], failed: false };
    let mut next_line = 0;
    outcomes.reverse();
    let mut action = s.action();
    for _ in 0..100 {
        let event = match action {
            Action::ReadLine => {
                t.reads += 1;
                if next_line < lines.len() {
                    next_line += 1;
                    Event::Line(lines[next_line - 1].to_string())
                } else {
                    Event::EndOfInput
                }
            }
            Action::ShowMessage(m) => {
                t.echoed.push(m);
                Event::Shown
            }
            Action::Send(p) => {
                t.sent.push(p);
                match outcomes.pop().expect("no scripted outcome left") {
                    Ok(r) => Event::Replied(r),
                    Err(e) => Event::Failed(e),
                }
            }
            Action::ShowReply(r) => {
                t.replies.push(r);
                Event::Shown
            }
            Action::ShowError(_) => {
                t.errors += 1;
                Event::Shown
            }
            Action::Exit => return t,
            Action::Fail(_) => {
                t.failed = true;
                return t;
            }
        };
        action = s.step(event);
    }
    panic!("session did not end");
}

#[test]
fn blank_then_quit_reads_twice_sends_nothing() {
    let t = drive(Session::interactive(String::new()), &["", ":q"], vec![]);
    assert_eq!(t.reads, 2);
    assert!(t.sent.is_empty());
    assert!(!t.failed);
}

#[test]
fn hello_then_quit_sends_once() {
    let t = drive(Session::interactive(String::new()), &["hello", ":quit"], vec![Ok("hi".to_string())]);
    assert_eq!(t.sent, vec!["hello".to_string()]);
    assert_eq!(t.replies, vec!["hi".to_string()]);
    assert_eq!(t.reads, 2);
}

#[test]
fn end_of_input_at_once_ends_cleanly() {
    let t = drive(Session::interactive(String::new()), &[], vec![]);
    assert_eq!(t.reads, 1);
    assert!(t.sent.is_empty());
    assert!(!t.failed);
}

#[test]
fn transport_failure_then_next_turn_succeeds() {
    let t = drive(
        Session::interactive(String::new()),
        &["first", "second"],
        vec![Err(ChatError::Transport { cause: "connection refused".to_string() }), Ok("ok".to_string())],
    );
    assert_eq!(t.errors, 1);
    assert_eq!(t.sent, vec!["first".to_string(), "second".to_string()]);
    assert_eq!(t.replies, vec!["ok".to_string()]);
    assert_eq!(t.reads, 3);
    assert!(!t.failed);
}

#[test]
fn every_failure_kind_is_per_turn_in_interactive_mode() {
    let t = drive(
        Session::interactive(String::new()),
        &["a", "b", "c"],
        vec![
            Err(ChatError::MissingCredential),
            Err(ChatError::Service { status: 401, body: "no".to_string() }),
            Err(ChatError::Transport { cause: "x".to_string() }),
        ],
    );
    assert_eq!(t.errors, 3);
    assert!(!t.failed);
}

#[test]
fn lines_are_trimmed_and_sent_with_context() {
    let t = drive(
        Session::interactive("CTX".to_string()),
        &["  hello there \t\n", "   \n", "  :quit  "],
        vec![Ok("r".to_string())],
    );
    assert_eq!(t.sent, vec!["CTX\n\nUser request:\nhello there".to_string()]);
    assert_eq!(t.reads, 3);
}

#[test]
fn unicode_white_space_is_trimmed() {
    assert_eq!(classify_line("\u{3000}:q\u{a0}"), LineKind::Quit);
    assert_eq!(classify_line(" \u{2003} "), LineKind::Blank);
    assert_eq!(classify_line(" :qu "), LineKind::Message);
}

#[test]
fn classify_trimmed_lines() {
    assert_eq!(classify(""), LineKind::Blank);
    assert_eq!(classify(":q"), LineKind::Quit);
    assert_eq!(classify(":quit"), LineKind::Quit);
    assert_eq!(classify(":Q"), LineKind::Message);
    assert_eq!(classify(" :q"), LineKind::Message);
    assert_eq!(classify("hello"), LineKind::Message);
}

#[test]
fn one_shot_echoes_sends_and_exits() {
    let s = Session::one_shot("CTX".to_string(), "Explain".to_string());
    assert!(s.has_context());
    let t = drive(s, &[], vec![Ok("answer".to_string())]);
    assert_eq!(t.echoed, vec!["Explain".to_string()]);
    assert_eq!(t.sent, vec!["CTX\n\nUser request:\nExplain".to_string()]);
    assert_eq!(t.replies, vec!["answer".to_string()]);
    assert_eq!(t.reads, 0);
    assert!(!t.failed);
}

#[test]
fn one_shot_failure_is_fatal() {
    let s = Session::one_shot(String::new(), "hi".to_string());
    assert!(!s.has_context());
    let t = drive(s, &[], vec![Err(ChatError::Service { status: 401, body: "bad key".to_string() })]);
    assert_eq!(t.sent, vec!["hi".to_string()]);
    assert!(t.failed);
    assert!(t.replies.is_empty());
}

#[test]
fn unexpected_event_changes_nothing() {
    let mut s = Session::interactive(String::new());
    assert!(matches!(s.step(Event::Shown), Action::ReadLine));
    assert!(matches!(s.step(Event::Replied("x".to_string())), Action::ReadLine));
    match s.step(Event::Line("go".to_string())) {
        Action::Send(p) => assert_eq!(p, "go"),
        _ => panic!("expected a send"),
    }
    match s.step(Event::EndOfInput) {
        Action::Send(p) => assert_eq!(p, "go"),
        _ => panic!("expected the send to stay pending"),
    }
}

#[test]
fn one_shot_message_is_trimmed() {
    let s = Session::one_shot("CTX".to_string(), "  hi \n".to_string());
    let t = drive(s, &[], vec![Ok("r".to_string())]);
    assert_eq!(t.echoed, vec!["hi".to_string()]);
    assert_eq!(t.sent, vec!["CTX\n\nUser request:\nhi".to_string()]);
    let t = drive(Session::one_shot(String::new(), "\u{3000} hi".to_string()), &[], vec![Ok("r".to_string())]);
    assert_eq!(t.sent, vec!["hi".to_string()]);
}
