use vstd::prelude::*;
use vstd::string::{is_ascii, StringSliceAdditionalSpecFns};
use crate::codec::{copy_range, generate_upload_arg, upload_arg};
use crate::status::Status;

verus! {

/// The argument of the sleep command, which the agent must echo back as its
/// reply body.
pub const SLEEP_ARG: &'static str = "1\0";

/// The command sent at each step; the check-in step sends none.
pub open spec fn command_of(s: Status) -> Seq<u8> {
    match s {
        Status::Sleep => "sleep\0".spec_bytes(),
        Status::Upload => "upload\0".spec_bytes(),
        Status::Download => "download\0".spec_bytes(),
        Status::Hostname => "hostname\0".spec_bytes(),
        Status::Netstat => "netstat\0".spec_bytes(),
        Status::ProcessList => "proclist\0".spec_bytes(),
        Status::Invoke => "invoke\0".spec_bytes(),
        Status::Shutdown => "shutdown\0".spec_bytes(),
        _ => "".spec_bytes(),
    }
}

/// The argument sent at each step: the upload carries the chosen path and
/// content, the download asks for the same path.
pub open spec fn argument_of(s: Status, path: Seq<u8>, content: Seq<u8>) -> Seq<u8> {
    match s {
        Status::Sleep => SLEEP_ARG.spec_bytes(),
        Status::Upload => upload_arg(path, content),
        Status::Download => path,
        Status::Invoke => "ls -al\0".spec_bytes(),
        Status::Hostname | Status::Netstat | Status::ProcessList | Status::Shutdown => "\0".spec_bytes(),
        _ => seq![],
    }
}

/// The body that must come back at each step, where one is checked: the
/// greeting, the echo of the sleep argument, the uploaded content, and the
/// shutdown acknowledgement.
pub open spec fn expected_of(s: Status, content: Seq<u8>) -> Option<Seq<u8>> {
    match s {
        Status::CheckingIn => Some("roadrunner checkin\0".spec_bytes()),
        Status::Sleep => Some(SLEEP_ARG.spec_bytes()),
        Status::Download => Some(content),
        Status::Shutdown => Some("shutting down\0".spec_bytes()),
        _ => None,
    }
}

/// The name of each step in the log.
pub open spec fn label_of(s: Status) -> Seq<char> {
    match s {
        Status::CheckingIn => "Checkin"@,
        Status::Sleep => "Sleep Command"@,
        Status::Upload => "Upload Command"@,
        Status::Download => "Download Command"@,
        Status::Hostname => "Hostname Command"@,
        Status::Netstat => "Netstat Command"@,
        Status::ProcessList => "Process List Command"@,
        Status::Invoke => "Invoke Command"@,
        Status::Shutdown => "Shutdown Command"@,
        Status::Done => "Done"@,
    }
}

/// Whether the chosen path and content fit in the frames that carry them.
pub open spec fn names_fit(path: Seq<u8>, content: Seq<u8>) -> bool {
    path.len() + content.len() + 40 <= u32::MAX
}

/// The command sent at step `s`.
pub fn command_bytes(s: Status) -> (r: &'static [u8])
    ensures
        r@ == command_of(s),
{
    match s {
        Status::Sleep => "sleep\0".as_bytes(),
        Status::Upload => "upload\0".as_bytes(),
        Status::Download => "download\0".as_bytes(),
        Status::Hostname => "hostname\0".as_bytes(),
        Status::Netstat => "netstat\0".as_bytes(),
        Status::ProcessList => "proclist\0".as_bytes(),
        Status::Invoke => "invoke\0".as_bytes(),
        Status::Shutdown => "shutdown\0".as_bytes(),
        _ => "".as_bytes(),
    }
}

fn literal_bytes(s: &str) -> (r: Vec<u8>)
    ensures
        r@ == s.spec_bytes(),
{
    let b = s.as_bytes();
    let r = copy_range(b, 0, b.len());
    assert(b@.subrange(0, b@.len() as int) =~= b@);
    r
}

/// The argument sent at step `s` for the chosen path and content.
pub fn argument_bytes(s: Status, path: &[u8], content: &[u8]) -> (r: Vec<u8>)
    requires
        names_fit(path@, content@),
    ensures
        r@ == argument_of(s, path@, content@),
{
    match s {
        Status::Sleep => literal_bytes(SLEEP_ARG),
        Status::Upload => generate_upload_arg(path, content),
        Status::Download => copy_range_all(path),
        Status::Invoke => literal_bytes("ls -al\0"),
        Status::Hostname | Status::Netstat | Status::ProcessList | Status::Shutdown => literal_bytes("\0"),
        _ => Vec::new(),
    }
}

fn copy_range_all(s: &[u8]) -> (r: Vec<u8>)
    ensures
        r@ == s@,
{
    let r = copy_range(s, 0, s.len());
    assert(s@.subrange(0, s@.len() as int) =~= s@);
    r
}

/// The body that step `s` must receive, if it checks one.
pub fn expected_bytes(s: Status, content: &[u8]) -> (r: Option<Vec<u8>>)
    ensures
        match expected_of(s, content@) {
            Some(x) => r is Some && r->0@ == x,
            None => r is None,
        },
{
    match s {
        Status::CheckingIn => Some(literal_bytes("roadrunner checkin\0")),
        Status::Sleep => Some(literal_bytes(SLEEP_ARG)),
        Status::Download => Some(copy_range_all(content)),
        Status::Shutdown => Some(literal_bytes("shutting down\0")),
        _ => None,
    }
}

/// The name of step `s` in the log.
pub fn label(s: Status) -> (r: &'static str)
    ensures
        r@ == label_of(s),
{
    match s {
        Status::CheckingIn => "Checkin",
        Status::Sleep => "Sleep Command",
        Status::Upload => "Upload Command",
        Status::Download => "Download Command",
        Status::Hostname => "Hostname Command",
        Status::Netstat => "Netstat Command",
        Status::ProcessList => "Process List Command",
        Status::Invoke => "Invoke Command",
        Status::Shutdown => "Shutdown Command",
        Status::Done => "Done",
    }
}

} // verus!

verus! {

proof fn lemma_literal_len(s: &str)
    requires
        is_ascii(s),
    ensures
        s.spec_bytes().len() == s@.len(),
{
    vstd::string::is_ascii_spec_bytes(s);
}

/// The commands and fixed arguments are short.
pub proof fn lemma_script_lengths(s: Status, path: Seq<u8>, content: Seq<u8>)
    ensures
        command_of(s).len() <= 9,
        argument_of(s, path, content).len() <= 8 + path.len() + content.len(),
{
    reveal_strlit("sleep\0");
    lemma_literal_len("sleep\0");
    reveal_strlit("upload\0");
    lemma_literal_len("upload\0");
    reveal_strlit("download\0");
    lemma_literal_len("download\0");
    reveal_strlit("hostname\0");
    lemma_literal_len("hostname\0");
    reveal_strlit("netstat\0");
    lemma_literal_len("netstat\0");
    reveal_strlit("proclist\0");
    lemma_literal_len("proclist\0");
    reveal_strlit("invoke\0");
    lemma_literal_len("invoke\0");
    reveal_strlit("shutdown\0");
    lemma_literal_len("shutdown\0");
    reveal_strlit("");
    lemma_literal_len("");
    reveal_strlit("1\0");
    lemma_literal_len(SLEEP_ARG);
    reveal_strlit("ls -al\0");
    lemma_literal_len("ls -al\0");
    reveal_strlit("\0");
    lemma_literal_len("\0");
}

} // verus!
