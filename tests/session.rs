use acme_server::codec::parse_command;
use acme_server::session::{Action, Event, Phase, Session};
use acme_server::status::{Mark, Status};

fn header_for(body: &[u8]) -> [u8; 12] {
    let n = body.len() as u32;
    let mut h = [0u8; 12];
    h[0..4].copy_from_slice(&(12 + n).to_be_bytes());
    h[4..8].copy_from_slice(&0u32.to_be_bytes());
    h[8..12].copy_from_slice(&n.to_be_bytes());
    h
}

/// Answers one body: feeds the header, then the body, and returns the next action.
fn answer(session: &mut Session, body: &[u8]) -> Action {
    match session.step(Event::Header(header_for(body))) {
        Action::ReadBody(n) => assert_eq!(n, body.len()),
        _ => panic!("expected a body read"),
    }
    session.step(Event::Body(body.to_vec()))
}

/// A well-behaved agent: remembers uploads and answers downloads with them.
fn agent_reply(frame: &[u8], files: &mut Vec<(Vec<u8>, Vec<u8>)>) -> Vec<u8> {
    let (cmd, arg) = parse_command(frame).expect("well-formed frame");
    match cmd.as_slice() {
        b"upload\0" => {
            let pl = u32::from_be_bytes([arg[0], arg[1], arg[2], arg[3]]) as usize;
            let path = arg[4..4 + pl].to_vec();
            let content = arg[8 + pl..].to_vec();
            files.push((path, content));
            vec![]
        }
        b"download\0" => {
            files.iter().find(|(p, _)| *p == arg).map(|(_, c)| c.clone()).unwrap_or_default()
        }
        b"sleep\0" => arg,
        b"shutdown\0" => b"shutting down\0".to_vec(),
        _ => b"ok\0".to_vec(),
    }
}

fn run_to_end(session: &mut Session, mut action: Action) -> (Status, Vec<Vec<u8>>) {
    let mut files = Vec::new();
    let mut sent = Vec::new();
    loop {
        action = match action {
            Action::Send(frame) => {
                let reply = agent_reply(&frame, &mut files);
                sent.push(frame);
                assert!(matches!(session.step(Event::Sent), Action::ReadHeader));
                answer(session, &reply)
            }
            Action::Finish(s) => return (s, sent),
            _ => panic!("unexpected action"),
        }
    }
}

#[test]
fn full_script_reaches_done() {
    let (mut session, first) = Session::start(b"abcdefghijklmnop", b"QRSTUVWXYZabcdef");
    assert!(matches!(first, Action::ReadHeader));
    let action = answer(&mut session, b"roadrunner checkin\0");
    let (outcome, sent) = run_to_end(&mut session, action);
    assert_eq!(outcome, Status::Done);
    assert_eq!(session.status, Status::Done);
    assert_eq!(session.phase, Phase::Finished);
    assert_eq!(sent.len(), 8);
    assert!(session.log.starts_with("============\n\nTesting Checkin\nTotal size: 31\n"));
    assert!(session.log.ends_with("Shutdown Command Successful\n============\n\n"));
    assert_eq!(session.path, b"/tmp/abcdefghijklmnop.rr.txt\0".to_vec());
    assert_eq!(session.content, b"File from test server: QRSTUVWXYZabcdef".to_vec());
}

#[test]
fn upload_then_download_round_trip() {
    let (mut session, _) = Session::start(b"pathpathpathpath", b"datadatadatadata");
    let action = answer(&mut session, b"roadrunner checkin\0");
    let (_, sent) = run_to_end(&mut session, action);
    let (cmd, up) = parse_command(&sent[1]).unwrap();
    assert_eq!(cmd, b"upload\0");
    let (cmd, down) = parse_command(&sent[2]).unwrap();
    assert_eq!(cmd, b"download\0");
    let pl = u32::from_be_bytes([up[0], up[1], up[2], up[3]]) as usize;
    assert_eq!(&up[4..4 + pl], down.as_slice());
    assert_eq!(&up[8 + pl..], session.content.as_slice());
}

#[test]
fn wrong_greeting_fails_at_checkin() {
    let (mut session, _) = Session::start(b"a", b"b");
    let action = answer(&mut session, b"hello\0");
    assert!(matches!(action, Action::Finish(Status::CheckingIn)));
    assert!(session.log.ends_with(
        "Invalid response\nGot: [104, 101, 108, 108, 111, 0]\nExpected: [114, 111, 97, 100, 114, 117, 110, 110, 101, 114, 32, 99, 104, 101, 99, 107, 105, 110, 0]"
    ));
}

#[test]
fn failure_at_sleep_freezes_the_session() {
    let (mut session, _) = Session::start(b"a", b"b");
    let action = answer(&mut session, b"roadrunner checkin\0");
    assert!(matches!(action, Action::Send(_)));
    assert_eq!(session.status, Status::Sleep);
    let action = session.step(Event::SendFailed("broken pipe".to_string()));
    assert!(matches!(action, Action::Finish(Status::Sleep)));
    let error = "Failed to send  s  l  e  e  p 00  command: broken pipe";
    assert!(session.log.ends_with(error));
    assert_eq!(session.log.matches(error).count(), 1);
    let log = session.log.clone();
    let again = session.step(Event::BodyFailed("late".to_string()));
    assert!(matches!(again, Action::Finish(Status::Sleep)));
    assert_eq!(session.log, log);
    assert_eq!(session.status, Status::Sleep);
}

#[test]
fn oversized_header_ends_without_body_read() {
    let (mut session, _) = Session::start(b"a", b"b");
    let mut h = [0u8; 12];
    h[8..12].copy_from_slice(&10001u32.to_be_bytes());
    let action = session.step(Event::Header(h));
    assert!(matches!(action, Action::Finish(Status::CheckingIn)));
    assert!(session.log.ends_with("Message length: 10001\nToo much data in message"));
}

#[test]
fn short_body_is_an_incomplete_body_error() {
    let (mut session, _) = Session::start(b"a", b"b");
    let h = header_for(b"roadrunner checkin\0");
    assert!(matches!(session.step(Event::Header(h)), Action::ReadBody(19)));
    let action = session.step(Event::Body(b"road".to_vec()));
    assert!(matches!(action, Action::Finish(Status::CheckingIn)));
    assert!(session
        .log
        .ends_with("Message body length does not match header: expected: 19, actual: 4"));
}

#[test]
fn header_read_failure_names_the_field() {
    let (mut session, _) = Session::start(b"a", b"b");
    let action = session.step(Event::HeaderFailed {
        partial: vec![0, 0, 0, 9, 0, 0],
        detail: "early eof".to_string(),
    });
    assert!(matches!(action, Action::Finish(Status::CheckingIn)));
    assert!(session.log.ends_with("Total size: 9\nFailed to read return code: early eof"));
}

#[test]
fn random_session_names_are_letters() {
    let (session, action) = Session::new();
    assert!(matches!(action, Action::ReadHeader));
    let path = &session.path;
    assert_eq!(path.len(), 5 + 16 + 8);
    assert!(path[5..21].iter().all(|b| b.is_ascii_alphabetic()));
    let content = &session.content;
    assert_eq!(content.len(), 23 + 16);
    assert!(content[23..].iter().all(|b| b.is_ascii_alphabetic()));
}

#[test]
fn progress_marks_follow_the_outcome() {
    assert_eq!(
        Status::Upload.progress_marks(),
        vec![
            Mark::Passed,
            Mark::Passed,
            Mark::Failed,
            Mark::Pending,
            Mark::Pending,
            Mark::Pending,
            Mark::Pending,
            Mark::Pending,
            Mark::Pending,
            Mark::Pending,
        ]
    );
    assert_eq!(Status::Done.progress_marks(), vec![Mark::Passed; 10]);
    assert_eq!(Status::CheckingIn.index(), 0);
    assert_eq!(Status::Shutdown.next(), Status::Done);
}

#[test]
fn sleep_must_echo_its_argument() {
    let (mut session, _) = Session::start(b"a", b"b");
    let action = answer(&mut session, b"roadrunner checkin\0");
    let frame = match action {
        Action::Send(f) => f,
        _ => panic!("expected the sleep command"),
    };
    assert_eq!(parse_command(&frame), Some((b"sleep\0".to_vec(), b"1\0".to_vec())));
    assert!(matches!(session.step(Event::Sent), Action::ReadHeader));
    let action = answer(&mut session, b"ok\0");
    assert!(matches!(action, Action::Finish(Status::Sleep)));
    assert!(session
        .log
        .ends_with("Invalid response\nGot: [111, 107, 0]\nExpected: [49, 0]"));
}

#[test]
fn sleep_echo_passes() {
    let (mut session, _) = Session::start(b"a", b"b");
    answer(&mut session, b"roadrunner checkin\0");
    assert!(matches!(session.step(Event::Sent), Action::ReadHeader));
    let action = answer(&mut session, b"1\0");
    assert!(matches!(action, Action::Send(_)));
    assert_eq!(session.status, Status::Upload);
}

#[test]
fn return_code_is_checked_only_when_configured() {
    let (mut session, _) = Session::start(b"a", b"b");
    let mut h = header_for(b"roadrunner checkin\0");
    h[7] = 5;
    assert!(matches!(session.step(Event::Header(h)), Action::ReadBody(19)));

    let (mut session, _) = Session::start(b"a", b"b");
    session.expect_return_code(Some(0));
    assert!(matches!(session.step(Event::Header(h)), Action::Finish(Status::CheckingIn)));
    assert!(session.log.ends_with("Unexpected return code: expected: 0, actual: 5"));

    let (mut session, _) = Session::start(b"a", b"b");
    session.expect_return_code(Some(5));
    assert!(matches!(session.step(Event::Header(h)), Action::ReadBody(19)));
}
