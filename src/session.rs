use rand::distr::{Alphabetic, SampleString};
use vstd::prelude::*;
use vstd::string::{StringExecFns, StringSliceAdditionalSpecFns};
use crate::byte_format::{rendered, ByteFormat};
use crate::codec::{
    check_body, command_frame, generate_command, header_field, parse_response_header, read_be32,
    upload_arg, MAX_MESSAGE_LEN,
};
use crate::script::{
    argument_bytes, argument_of, command_bytes, command_of, expected_bytes, expected_of, label,
    label_of, lemma_script_lengths, names_fit,
};
use crate::status::{next_status, Status};
use crate::text::{byte_list, chars_to_string, decimal, push_byte_list, push_decimal};

verus! {

/// Where a session stands between two events.
#[derive(Clone, Copy, Debug, PartialEq, Eq, Structural)]
pub enum Phase {
    /// A command frame was handed out to be written.
    Sending,
    /// The twelve header bytes of a response are awaited.
    AwaitingHeader,
    /// A body of the given length is awaited.
    AwaitingBody(u32),
    /// The session is over; its status is its outcome.
    Finished,
}

/// One scripted conversation with an agent: the step reached, the log so
/// far, and the upload path and content chosen for it.
pub struct Session {
    pub status: Status,
    pub phase: Phase,
    pub log: String,
    pub path: Vec<u8>,
    pub content: Vec<u8>,
    /// The return code every response must carry, if one is checked.
    pub expected_return_code: Option<u32>,
}

pub ghost struct SessionView {
    pub status: Status,
    pub phase: Phase,
    pub log: Seq<char>,
    pub path: Seq<u8>,
    pub content: Seq<u8>,
    pub expected_return_code: Option<u32>,
}

impl View for Session {
    type V = SessionView;

    open spec fn view(&self) -> SessionView {
        SessionView {
            status: self.status,
            phase: self.phase,
            log: self.log@,
            path: self.path@,
            content: self.content@,
            expected_return_code: self.expected_return_code,
        }
    }
}

/// What the connection should do next for a session.
pub enum Action {
    /// Write these bytes.
    Send(Vec<u8>),
    /// Read the twelve header bytes of a response.
    ReadHeader,
    /// Read up to this many body bytes, fewer only if the peer closes.
    ReadBody(usize),
    /// Close the connection; the session ended at this status.
    Finish(Status),
}

pub ghost enum ActionView {
    Send(Seq<u8>),
    ReadHeader,
    ReadBody(nat),
    Finish(Status),
}

impl View for Action {
    type V = ActionView;

    open spec fn view(&self) -> ActionView {
        match self {
            Action::Send(b) => ActionView::Send(b@),
            Action::ReadHeader => ActionView::ReadHeader,
            Action::ReadBody(n) => ActionView::ReadBody(*n as nat),
            Action::Finish(s) => ActionView::Finish(*s),
        }
    }
}

/// What came of the last action.
pub enum Event {
    /// The frame was written.
    Sent,
    /// Writing failed, with the transport's description.
    SendFailed(String),
    /// The twelve header bytes arrived.
    Header([u8; 12]),
    /// Reading the header failed after `partial` bytes had arrived.
    HeaderFailed { partial: Vec<u8>, detail: String },
    /// The body bytes read before the declared length was reached or the peer closed.
    Body(Vec<u8>),
    /// Reading the body failed, with the transport's description.
    BodyFailed(String),
}

pub ghost enum EventView {
    Sent,
    SendFailed(Seq<char>),
    Header(Seq<u8>),
    HeaderFailed(Seq<u8>, Seq<char>),
    Body(Seq<u8>),
    BodyFailed(Seq<char>),
}

impl View for Event {
    type V = EventView;

    open spec fn view(&self) -> EventView {
        match self {
            Event::Sent => EventView::Sent,
            Event::SendFailed(d) => EventView::SendFailed(d@),
            Event::Header(h) => EventView::Header(h@),
            Event::HeaderFailed { partial, detail } => EventView::HeaderFailed(partial@, detail@),
            Event::Body(b) => EventView::Body(b@),
            Event::BodyFailed(d) => EventView::BodyFailed(d@),
        }
    }
}

/// The line that separates steps in the log.
pub open spec fn banner() -> Seq<char> {
    "============\n\n"@
}

pub open spec fn testing_text(s: Status) -> Seq<char> {
    "Testing "@ + label_of(s) + "\n"@
}

pub open spec fn success_text(s: Status) -> Seq<char> {
    label_of(s) + " Successful\n"@ + banner()
}

/// The frame sent at step `s`.
pub open spec fn frame_of(s: Status, path: Seq<u8>, content: Seq<u8>) -> Seq<u8> {
    command_frame(command_of(s), argument_of(s, path, content))
}

/// How a frame or a body is shown in the log: rows of 16, at most 64 elements.
pub open spec fn dump(b: Seq<u8>) -> Seq<char> {
    rendered(b, Some(16), Some(64), false)
}

pub open spec fn command_log(frame: Seq<u8>) -> Seq<char> {
    "---Command---\n"@ + dump(frame) + "-------------\n"@
}

pub open spec fn body_log(body: Seq<u8>) -> Seq<char> {
    "---Response Body---\n"@ + dump(body) + "-------------------\n"@
}

pub open spec fn field_name(i: nat) -> Seq<char> {
    if i == 0 {
        "total size"@
    } else if i == 1 {
        "return code"@
    } else {
        "message length"@
    }
}

pub open spec fn field_line(h: Seq<u8>, i: nat) -> Seq<char> {
    let title = if i == 0 {
        "Total size: "@
    } else if i == 1 {
        "Return code: "@
    } else {
        "Message length: "@
    };
    title + decimal(header_field(h, (4 * i) as int) as nat) + "\n"@
}

/// The log lines of the first `k` header fields held by `h`.
pub open spec fn header_lines(h: Seq<u8>, k: nat) -> Seq<char>
    decreases k,
{
    if k == 0 {
        seq![]
    } else {
        header_lines(h, (k - 1) as nat) + field_line(h, (k - 1) as nat)
    }
}

pub open spec fn send_error(cmd: Seq<u8>, detail: Seq<char>) -> Seq<char> {
    "Failed to send "@ + rendered(cmd, None, None, false) + " command: "@ + detail
}

pub open spec fn incomplete_error(expected: nat, actual: nat) -> Seq<char> {
    "Message body length does not match header: expected: "@ + decimal(expected) + ", actual: "@
        + decimal(actual)
}

pub open spec fn return_code_error(expected: nat, actual: nat) -> Seq<char> {
    "Unexpected return code: expected: "@ + decimal(expected) + ", actual: "@ + decimal(actual)
}

pub open spec fn mismatch_error(got: Seq<u8>, expected: Seq<u8>) -> Seq<char> {
    "Invalid response\nGot: "@ + byte_list(got) + "\nExpected: "@ + byte_list(expected)
}

/// Whether `e` answers the action that a session in phase `p` handed out.
pub open spec fn accepts(p: Phase, e: EventView) -> bool {
    match p {
        Phase::Sending => e is Sent || e is SendFailed,
        Phase::AwaitingHeader => match e {
            EventView::Header(h) => h.len() == 12,
            EventView::HeaderFailed(partial, _) => partial.len() < 12,
            _ => false,
        },
        Phase::AwaitingBody(_) => e is Body || e is BodyFailed,
        Phase::Finished => true,
    }
}

/// What an event adds to the log before its verdict.
pub open spec fn event_log(s: SessionView, e: EventView) -> Seq<char> {
    match e {
        EventView::Header(h) => header_lines(h, 3),
        EventView::HeaderFailed(p, _) => header_lines(p, p.len() / 4),
        EventView::Body(b) => match s.phase {
            Phase::AwaitingBody(n) => if b.len() == n { body_log(b) } else { seq![] },
            _ => seq![],
        },
        _ => seq![],
    }
}

/// The error text with which `e` fails the current step, if it does.
pub open spec fn failure(s: SessionView, e: EventView) -> Option<Seq<char>> {
    match e {
        EventView::Sent => None,
        EventView::SendFailed(d) => Some(send_error(command_of(s.status), d)),
        EventView::Header(h) => if header_field(h, 8) > MAX_MESSAGE_LEN {
            Some("Too much data in message"@)
        } else {
            match s.expected_return_code {
                Some(c) => if header_field(h, 4) != c {
                    Some(return_code_error(c as nat, header_field(h, 4) as nat))
                } else {
                    None
                },
                None => None,
            }
        },
        EventView::HeaderFailed(p, d) => Some(
            "Failed to read "@ + field_name(p.len() / 4) + ": "@ + d,
        ),
        EventView::Body(b) => match s.phase {
            Phase::AwaitingBody(n) => if b.len() != n {
                Some(incomplete_error(n as nat, b.len()))
            } else {
                match expected_of(s.status, s.content) {
                    Some(x) => if b != x { Some(mismatch_error(b, x)) } else { None },
                    None => None,
                }
            },
            _ => None,
        },
        EventView::BodyFailed(d) => Some("Failed to read message body: "@ + d),
    }
}

/// The session after step `s.status` succeeded, and what to do next.
pub open spec fn advance(s: SessionView) -> (SessionView, ActionView) {
    let n = next_status(s.status);
    let log = s.log + success_text(s.status);
    if n == Status::Done {
        (SessionView { status: n, phase: Phase::Finished, log, ..s }, ActionView::Finish(n))
    } else {
        let f = frame_of(n, s.path, s.content);
        (
            SessionView {
                status: n,
                phase: Phase::Sending,
                log: log + testing_text(n) + command_log(f),
                ..s
            },
            ActionView::Send(f),
        )
    }
}

/// The session after event `e`, and what to do next.
pub open spec fn step_spec(s: SessionView, e: EventView) -> (SessionView, ActionView) {
    if s.phase == Phase::Finished {
        (s, ActionView::Finish(s.status))
    } else {
        let logged = s.log + event_log(s, e);
        match failure(s, e) {
            Some(msg) => (
                SessionView { phase: Phase::Finished, log: logged + msg, ..s },
                ActionView::Finish(s.status),
            ),
            None => match e {
                EventView::Sent => (
                    SessionView { phase: Phase::AwaitingHeader, ..s },
                    ActionView::ReadHeader,
                ),
                EventView::Header(h) => (
                    SessionView { phase: Phase::AwaitingBody(header_field(h, 8)), log: logged, ..s },
                    ActionView::ReadBody(header_field(h, 8) as nat),
                ),
                _ => advance(SessionView { log: logged, ..s }),
            },
        }
    }
}

impl SessionView {
    /// The session's invariant.
    pub open spec fn wf(self) -> bool {
        &&& names_fit(self.path, self.content)
        &&& self.status == Status::Done ==> self.phase == Phase::Finished
        &&& self.phase == Phase::Sending ==> self.status != Status::CheckingIn
        &&& forall|n: u32| self.phase == Phase::AwaitingBody(n) ==> n <= MAX_MESSAGE_LEN
    }
}

/// Whether two byte sequences are equal.
fn same_bytes(a: &[u8], b: &[u8]) -> (r: bool)
    ensures
        r == (a@ == b@),
{
    if a.len() != b.len() {
        return false;
    }
    let mut i: usize = 0;
    while i < a.len()
        invariant
            a@.len() == b@.len(),
            i <= a@.len(),
            forall|j: int| 0 <= j < i ==> a@[j] == b@[j],
        decreases a@.len() - i,
    {
        if a[i] != b[i] {
            return false;
        }
        i = i + 1;
    }
    assert(a@ =~= b@);
    true
}

/// Appends the characters of `v` to `log`.
fn append_chars(log: &mut String, v: &Vec<char>)
    ensures
        final(log)@ == old(log)@ + v@,
{
    let t = chars_to_string(v);
    log.append(t.as_str());
}

/// Appends the log lines of the first `k` header fields held by `h`.
fn append_header_lines(log: &mut String, h: &[u8], k: usize)
    requires
        4 * k <= h@.len(),
        k <= 3,
    ensures
        final(log)@ == old(log)@ + header_lines(h@, k as nat),
{
    let mut i: usize = 0;
    while i < k
        invariant
            4 * k <= h@.len(),
            k <= 3,
            i <= k,
            log@ == old(log)@ + header_lines(h@, i as nat),
        decreases k - i,
    {
        if i == 0 {
            log.append("Total size: ");
        } else if i == 1 {
            log.append("Return code: ");
        } else {
            log.append("Message length: ");
        }
        let mut digits: Vec<char> = Vec::new();
        push_decimal(&mut digits, read_be32(h, 4 * i) as u64);
        append_chars(log, &digits);
        log.append("\n");
        i = i + 1;
    }
}

impl Session {
    /// Starts a session whose upload goes to `/tmp/<path_name>.rr.txt` and
    /// holds `File from test server: <content_name>`. The first action is to
    /// read the agent's greeting.
    pub fn start(path_name: &[u8], content_name: &[u8]) -> (r: (Session, Action))
        requires
            path_name@.len() + content_name@.len() + 76 <= u32::MAX,
        ensures
            r.0@ == (SessionView {
                status: Status::CheckingIn,
                phase: Phase::AwaitingHeader,
                log: banner() + testing_text(Status::CheckingIn),
                path: "/tmp/".spec_bytes() + path_name@ + ".rr.txt\0".spec_bytes(),
                content: "File from test server: ".spec_bytes() + content_name@,
                expected_return_code: None,
            }),
            r.0@.wf(),
            r.1@ == ActionView::ReadHeader,
    {
        proof {
            reveal_strlit("/tmp/");
            reveal_strlit(".rr.txt\0");
            reveal_strlit("File from test server: ");
            vstd::string::is_ascii_spec_bytes("/tmp/");
            vstd::string::is_ascii_spec_bytes(".rr.txt\0");
            vstd::string::is_ascii_spec_bytes("File from test server: ");
        }
        let mut path: Vec<u8> = Vec::new();
        path.extend_from_slice("/tmp/".as_bytes());
        path.extend_from_slice(path_name);
        path.extend_from_slice(".rr.txt\0".as_bytes());
        let mut content: Vec<u8> = Vec::new();
        content.extend_from_slice("File from test server: ".as_bytes());
        content.extend_from_slice(content_name);
        let mut log = String::new();
        log.append("============\n\n");
        log.append("Testing ");
        log.append(label(Status::CheckingIn));
        log.append("\n");
        let session = Session {
            status: Status::CheckingIn,
            phase: Phase::AwaitingHeader,
            log,
            path,
            content,
            expected_return_code: None,
        };
        proof {
            assert(session@.log =~= banner() + testing_text(Status::CheckingIn));
            assert(session@.path =~= "/tmp/".spec_bytes() + path_name@ + ".rr.txt\0".spec_bytes());
            assert(session@.content =~= "File from test server: ".spec_bytes() + content_name@);
        }
        (session, Action::ReadHeader)
    }

    /// Sets the return code that every later response must carry, or turns
    /// the check off with `None`; without a call no return code is checked.
    pub fn expect_return_code(&mut self, code: Option<u32>)
        ensures
            final(self)@ == (SessionView { expected_return_code: code, ..old(self)@ }),
    {
        self.expected_return_code = code;
    }

    /// Ends the session at its current step with `msg` as the last log text.
    fn fail(&mut self, msg: &str) -> (a: Action)
        ensures
            final(self)@ == (SessionView {
                phase: Phase::Finished,
                log: old(self)@.log + msg@,
                ..old(self)@
            }),
            a@ == ActionView::Finish(old(self).status),
    {
        self.log.append(msg);
        self.phase = Phase::Finished;
        Action::Finish(self.status)
    }

    /// Logs the success of the current step and moves to the next one.
    fn advance(&mut self) -> (a: Action)
        requires
            old(self)@.wf(),
            old(self).status != Status::Done,
        ensures
            (final(self)@, a@) == advance(old(self)@),
            final(self)@.wf(),
    {
        let ghost s0 = old(self)@;
        self.log.append(label(self.status));
        self.log.append(" Successful\n");
        self.log.append("============\n\n");
        assert(self.log@ =~= s0.log + success_text(s0.status));
        let n = self.status.next();
        self.status = n;
        if n == Status::Done {
            self.phase = Phase::Finished;
            Action::Finish(n)
        } else {
            self.log.append("Testing ");
            self.log.append(label(n));
            self.log.append("\n");
            let cmd = command_bytes(n);
            let arg = argument_bytes(n, self.path.as_slice(), self.content.as_slice());
            proof {
                lemma_script_lengths(n, self.path@, self.content@);
            }
            let frame = generate_command(cmd, arg.as_slice());
            self.log.append("---Command---\n");
            let shown = ByteFormat(frame.as_slice()).render(Some(16), Some(64), false);
            self.log.append(shown.as_str());
            self.log.append("-------------\n");
            assert(self.log@ =~= s0.log + success_text(s0.status) + testing_text(n) + command_log(
                frame@,
            ));
            self.phase = Phase::Sending;
            Action::Send(frame)
        }
    }

    /// Takes what came of the last action and says what to do next. The
    /// first failure ends the session at the step in progress, with the
    /// error text as the last thing in its log.
    pub fn step(&mut self, event: Event) -> (a: Action)
        requires
            old(self)@.wf(),
            accepts(old(self).phase, event@),
        ensures
            (final(self)@, a@) == step_spec(old(self)@, event@),
            final(self)@.wf(),
    {
        if self.phase == Phase::Finished {
            return Action::Finish(self.status);
        }
        match event {
            Event::Sent => {
                self.phase = Phase::AwaitingHeader;
                Action::ReadHeader
            },
            Event::SendFailed(detail) => {
                let cmd = command_bytes(self.status);
                let mut msg = String::new();
                msg.append("Failed to send ");
                let shown = ByteFormat(cmd).to_string();
                msg.append(shown.as_str());
                msg.append(" command: ");
                msg.append(detail.as_str());
                assert(msg@ =~= send_error(command_of(old(self).status), detail@));
                self.fail(msg.as_str())
            },
            Event::Header(h) => {
                append_header_lines(&mut self.log, h.as_slice(), 3);
                match parse_response_header(h.as_slice()) {
                    Err(_) => self.fail("Too much data in message"),
                    Ok(header) => {
                        match self.expected_return_code {
                            Some(c) => {
                                if header.return_code != c {
                                    let mut v: Vec<char> = Vec::new();
                                    push_decimal(&mut v, c as u64);
                                    let mut w: Vec<char> = Vec::new();
                                    push_decimal(&mut w, header.return_code as u64);
                                    let mut msg = String::new();
                                    msg.append("Unexpected return code: expected: ");
                                    append_chars(&mut msg, &v);
                                    msg.append(", actual: ");
                                    append_chars(&mut msg, &w);
                                    assert(msg@ =~= return_code_error(
                                        c as nat,
                                        header.return_code as nat,
                                    ));
                                    return self.fail(msg.as_str());
                                }
                            },
                            None => {},
                        }
                        self.phase = Phase::AwaitingBody(header.message_length);
                        Action::ReadBody(header.message_length as usize)
                    },
                }
            },
            Event::HeaderFailed { partial, detail } => {
                let k = partial.len() / 4;
                append_header_lines(&mut self.log, partial.as_slice(), k);
                let mut msg = String::new();
                msg.append("Failed to read ");
                if k == 0 {
                    msg.append("total size");
                } else if k == 1 {
                    msg.append("return code");
                } else {
                    msg.append("message length");
                }
                msg.append(": ");
                msg.append(detail.as_str());
                assert(msg@ =~= "Failed to read "@ + field_name(partial@.len() / 4) + ": "@ + detail@);
                self.fail(msg.as_str())
            },
            Event::Body(body) => {
                let n: u32 = match self.phase {
                    Phase::AwaitingBody(n) => n,
                    _ => 0,
                };
                let ghost got = body@;
                let got_len = body.len();
                let body = match check_body(n, body) {
                    Ok(b) => b,
                    Err(_) => {
                        let mut v: Vec<char> = Vec::new();
                        push_decimal(&mut v, n as u64);
                        let mut w: Vec<char> = Vec::new();
                        push_decimal(&mut w, got_len as u64);
                        let mut msg = String::new();
                        msg.append("Message body length does not match header: expected: ");
                        append_chars(&mut msg, &v);
                        msg.append(", actual: ");
                        append_chars(&mut msg, &w);
                        assert(msg@ =~= incomplete_error(n as nat, got.len()));
                        return self.fail(msg.as_str());
                    },
                };
                let ghost before = self.log@;
                self.log.append("---Response Body---\n");
                let shown = ByteFormat(body.as_slice()).render(Some(16), Some(64), false);
                self.log.append(shown.as_str());
                self.log.append("-------------------\n");
                assert(self.log@ =~= before + body_log(body@));
                match expected_bytes(self.status, self.content.as_slice()) {
                    Some(x) => {
                        if !same_bytes(body.as_slice(), x.as_slice()) {
                            let mut v: Vec<char> = Vec::new();
                            push_byte_list(&mut v, body.as_slice());
                            let mut w: Vec<char> = Vec::new();
                            push_byte_list(&mut w, x.as_slice());
                            let mut msg = String::new();
                            msg.append("Invalid response\nGot: ");
                            append_chars(&mut msg, &v);
                            msg.append("\nExpected: ");
                            append_chars(&mut msg, &w);
                            assert(msg@ =~= mismatch_error(body@, x@));
                            return self.fail(msg.as_str());
                        }
                        self.advance()
                    },
                    None => self.advance(),
                }
            },
            Event::BodyFailed(detail) => {
                let mut msg = String::new();
                msg.append("Failed to read message body: ");
                msg.append(detail.as_str());
                assert(msg@ =~= "Failed to read message body: "@ + detail@);
                self.fail(msg.as_str())
            },
        }
    }
}

/// Whether a byte is an ASCII letter.
pub open spec fn is_letter(b: u8) -> bool {
    (65 <= b <= 90) || (97 <= b <= 122)
}

/// Relies on rand's `Alphabetic` distribution, sampled through
/// `SampleString::sample_string` with the thread-local generator: `len`
/// characters, each an ASCII letter.
#[verifier::external_body]
fn random_letters(len: usize) -> (r: Vec<u8>)
    ensures
        r@.len() == len,
        forall|i: int| 0 <= i < len ==> is_letter(#[trigger] r@[i]),
{
    Alphabetic.sample_string(&mut rand::rng(), len).into_bytes()
}

/// Number of random letters in the upload's file name and in its content.
pub const NAME_LEN: usize = 16;

impl Session {
    /// Starts a session with a freshly drawn upload path and content, each
    /// made of sixteen random letters.
    pub fn new() -> (r: (Session, Action))
        ensures
            exists|p: Seq<u8>, c: Seq<u8>|
                p.len() == NAME_LEN && c.len() == NAME_LEN && (forall|i: int|
                    0 <= i < NAME_LEN ==> is_letter(#[trigger] p[i]) && is_letter(c[i]))
                    && r.0@ == (SessionView {
                    status: Status::CheckingIn,
                    phase: Phase::AwaitingHeader,
                    log: banner() + testing_text(Status::CheckingIn),
                    path: "/tmp/".spec_bytes() + p + ".rr.txt\0".spec_bytes(),
                    content: "File from test server: ".spec_bytes() + c,
                    expected_return_code: None,
                }),
            r.0@.wf(),
            r.1@ == ActionView::ReadHeader,
    {
        let p = random_letters(NAME_LEN);
        let c = random_letters(NAME_LEN);
        let r = Session::start(p.as_slice(), c.as_slice());
        assert(forall|i: int|
            0 <= i < NAME_LEN ==> is_letter(#[trigger] p@[i]) && is_letter(c@[i]));
        r
    }
}

/// A step that fails ends the session at the step in progress, never at
/// `Done`: the error text is appended once, as the last thing in the log, and
/// no later event changes the session again.
pub proof fn lemma_failure_ends_session(s: SessionView, e: EventView, later: EventView)
    requires
        s.wf(),
        s.phase != Phase::Finished,
        accepts(s.phase, e),
        failure(s, e) is Some,
    ensures
        step_spec(s, e).0.status == s.status,
        step_spec(s, e).0.status != Status::Done,
        step_spec(s, e).0.phase == Phase::Finished,
        step_spec(s, e).0.log == s.log + event_log(s, e) + failure(s, e)->0,
        step_spec(s, e).1 == ActionView::Finish(s.status),
        step_spec(step_spec(s, e).0, later) == (step_spec(s, e).0, ActionView::Finish(s.status)),
{
}

/// Within one session the upload sends the session's path and content, the
/// download asks for that same path and must get that same content back, and
/// no event changes the path or the content.
pub proof fn lemma_upload_then_download(s: SessionView, e: EventView)
    requires
        s.wf(),
    ensures
        argument_of(Status::Upload, s.path, s.content) == upload_arg(s.path, s.content),
        argument_of(Status::Download, s.path, s.content) == s.path,
        expected_of(Status::Download, s.content) == Some(s.content),
        step_spec(s, e).0.path == s.path,
        step_spec(s, e).0.content == s.content,
{
}

/// A header that declares more than `MAX_MESSAGE_LEN` body bytes ends the
/// session with the oversized-message error; no body read is asked for.
pub proof fn lemma_oversized_header(s: SessionView, h: Seq<u8>)
    requires
        s.wf(),
        s.phase == Phase::AwaitingHeader,
        h.len() == 12,
        header_field(h, 8) > MAX_MESSAGE_LEN,
    ensures
        step_spec(s, EventView::Header(h)).1 == ActionView::Finish(s.status),
        step_spec(s, EventView::Header(h)).0.log == s.log + header_lines(h, 3)
            + "Too much data in message"@,
{
}

/// A body shorter than the header declared, because the peer closed the
/// connection, ends the session with the incomplete-body error, which gives
/// both counts.
pub proof fn lemma_short_body(s: SessionView, b: Seq<u8>, n: u32)
    requires
        s.wf(),
        s.phase == Phase::AwaitingBody(n),
        b.len() < n,
    ensures
        step_spec(s, EventView::Body(b)).1 == ActionView::Finish(s.status),
        step_spec(s, EventView::Body(b)).0.log == s.log + incomplete_error(n as nat, b.len()),
{
}

} // verus!
