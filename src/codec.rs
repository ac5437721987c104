use vstd::prelude::*;

verus! {

/// Largest message body a response frame may declare.
pub const MAX_MESSAGE_LEN: u32 = 10000;

/// Number of bytes taken by the three fixed fields of a command frame.
pub const COMMAND_OVERHEAD: u32 = 12;

/// Number of bytes in a response header: total size, return code, message length.
pub const RESPONSE_HEADER_LEN: usize = 12;

/// The four big-endian bytes of `n`.
pub open spec fn be32(n: u32) -> Seq<u8> {
    seq![
        (n / 0x1000000) as u8,
        ((n / 0x10000) % 0x100) as u8,
        ((n / 0x100) % 0x100) as u8,
        (n % 0x100) as u8,
    ]
}

/// The number held by four big-endian bytes starting at `at`.
pub open spec fn be32_at(s: Seq<u8>, at: int) -> int {
    s[at] * 0x1000000 + s[at + 1] * 0x10000 + s[at + 2] * 0x100 + s[at + 3]
}

/// Whether a command and its argument fit in one frame.
pub open spec fn frame_fits(cmd: Seq<u8>, arg: Seq<u8>) -> bool {
    COMMAND_OVERHEAD + cmd.len() + arg.len() <= u32::MAX
}

/// A command frame: total length, command length, command, argument length, argument.
pub open spec fn command_frame(cmd: Seq<u8>, arg: Seq<u8>) -> Seq<u8> {
    be32((COMMAND_OVERHEAD + cmd.len() + arg.len()) as u32) + be32(cmd.len() as u32) + cmd
        + be32(arg.len() as u32) + arg
}

/// The argument of an upload: path length, path, content length, content.
pub open spec fn upload_arg(path: Seq<u8>, content: Seq<u8>) -> Seq<u8> {
    be32(path.len() as u32) + path + be32(content.len() as u32) + content
}

/// Reads a command frame back into its command and argument; `None` when the
/// length fields disagree with each other or with the frame's size.
pub open spec fn parse_command_frame(s: Seq<u8>) -> Option<(Seq<u8>, Seq<u8>)> {
    if s.len() < 8 {
        None
    } else {
        let cl = be32_at(s, 4);
        if s.len() < 12 + cl {
            None
        } else {
            let al = be32_at(s, 8 + cl);
            if be32_at(s, 0) != s.len() || s.len() != 12 + cl + al {
                None
            } else {
                Some((s.subrange(8, 8 + cl), s.subrange(12 + cl, s.len() as int)))
            }
        }
    }
}

/// The three header fields of a response frame.
#[derive(Clone, Copy, Debug, PartialEq, Eq)]
pub struct ResponseHeader {
    pub total_size: u32,
    pub return_code: u32,
    pub message_length: u32,
}

/// What can go wrong while decoding a response frame.
#[derive(Clone, Copy, Debug, PartialEq, Eq)]
pub enum CodecError {
    /// The declared message length is over the limit; no body is read.
    TooLong { length: u32 },
    /// The peer sent fewer body bytes than the header declared.
    Incomplete { expected: usize, actual: usize },
}

pub proof fn lemma_be32_value(n: u32)
    ensures
        be32_at(be32(n), 0) == n,
{
    let s = be32(n);
    assert(s[0] == n / 0x1000000);
    assert(s[1] == (n / 0x10000) % 0x100);
    assert(s[2] == (n / 0x100) % 0x100);
    assert(s[3] == n % 0x100);
    assert((n / 0x1000000) * 0x1000000 + ((n / 0x10000) % 0x100) * 0x10000 + ((n / 0x100)
        % 0x100) * 0x100 + n % 0x100 == n) by (nonlinear_arith);
}

proof fn lemma_be32_at_shift(prefix: Seq<u8>, n: u32, rest: Seq<u8>)
    ensures
        be32_at(prefix + be32(n) + rest, prefix.len() as int) == n,
{
    lemma_be32_value(n);
    let s = prefix + be32(n) + rest;
    let p = prefix.len() as int;
    assert(s[p] == be32(n)[0]);
    assert(s[p + 1] == be32(n)[1]);
    assert(s[p + 2] == be32(n)[2]);
    assert(s[p + 3] == be32(n)[3]);
}

/// Decoding a freshly encoded command frame gives back the command and the
/// argument, and its total-length field is twelve more than their lengths.
pub proof fn lemma_command_round_trip(cmd: Seq<u8>, arg: Seq<u8>)
    requires
        frame_fits(cmd, arg),
    ensures
        parse_command_frame(command_frame(cmd, arg)) == Some((cmd, arg)),
        be32_at(command_frame(cmd, arg), 0) == COMMAND_OVERHEAD + cmd.len() + arg.len(),
        command_frame(cmd, arg).len() == COMMAND_OVERHEAD + cmd.len() + arg.len(),
{
    let total = (COMMAND_OVERHEAD + cmd.len() + arg.len()) as u32;
    let s = command_frame(cmd, arg);
    let cl = cmd.len() as int;
    lemma_be32_at_shift(seq![], total, be32(cmd.len() as u32) + cmd + be32(arg.len() as u32) + arg);
    assert(s == seq![] + be32(total) + (be32(cmd.len() as u32) + cmd + be32(arg.len() as u32)
        + arg));
    lemma_be32_at_shift(be32(total), cmd.len() as u32, cmd + be32(arg.len() as u32) + arg);
    assert(s == be32(total) + be32(cmd.len() as u32) + (cmd + be32(arg.len() as u32) + arg));
    lemma_be32_at_shift(be32(total) + be32(cmd.len() as u32) + cmd, arg.len() as u32, arg);
    assert(s == be32(total) + be32(cmd.len() as u32) + cmd + be32(arg.len() as u32) + arg);
    assert(s.subrange(8, 8 + cl) =~= cmd);
    assert(s.subrange(12 + cl, s.len() as int) =~= arg);
}

/// Appends the four big-endian bytes of `n`.
fn push_be32(out: &mut Vec<u8>, n: u32)
    ensures
        final(out)@ == old(out)@ + be32(n),
{
    out.push((n / 0x1000000) as u8);
    out.push(((n / 0x10000) % 0x100) as u8);
    out.push(((n / 0x100) % 0x100) as u8);
    out.push((n % 0x100) as u8);
    assert(final(out)@ =~= old(out)@ + be32(n));
}

/// Reads the number held by four big-endian bytes starting at `at`.
pub fn read_be32(s: &[u8], at: usize) -> (r: u32)
    requires
        at + 4 <= s@.len(),
    ensures
        r == be32_at(s@, at as int),
{
    let a = s[at] as u32;
    let b = s[at + 1] as u32;
    let c = s[at + 2] as u32;
    let d = s[at + 3] as u32;
    assert(a * 0x1000000 + b * 0x10000 + c * 0x100 + d <= u32::MAX) by (nonlinear_arith)
        requires
            a < 256,
            b < 256,
            c < 256,
            d < 256,
    ;
    a * 0x1000000 + b * 0x10000 + c * 0x100 + d
}

/// Encodes a command frame for `command` with argument `args`.
pub fn generate_command(command: &[u8], args: &[u8]) -> (r: Vec<u8>)
    requires
        frame_fits(command@, args@),
    ensures
        r@ == command_frame(command@, args@),
{
    let command_len = command.len() as u32;
    let args_len = args.len() as u32;
    let total_len = command_len + args_len + COMMAND_OVERHEAD;
    let mut out: Vec<u8> = Vec::new();
    push_be32(&mut out, total_len);
    push_be32(&mut out, command_len);
    out.extend_from_slice(command);
    push_be32(&mut out, args_len);
    out.extend_from_slice(args);
    assert(out@ =~= command_frame(command@, args@));
    out
}

/// Encodes the argument of an upload command: the destination path and the
/// file content, each after its big-endian length.
pub fn generate_upload_arg(path: &[u8], content: &[u8]) -> (r: Vec<u8>)
    requires
        path@.len() <= u32::MAX,
        content@.len() <= u32::MAX,
    ensures
        r@ == upload_arg(path@, content@),
{
    let mut out: Vec<u8> = Vec::new();
    push_be32(&mut out, path.len() as u32);
    out.extend_from_slice(path);
    push_be32(&mut out, content.len() as u32);
    out.extend_from_slice(content);
    assert(out@ =~= upload_arg(path@, content@));
    out
}

/// The bytes of `s` from `from` up to `to`.
pub fn copy_range(s: &[u8], from: usize, to: usize) -> (r: Vec<u8>)
    requires
        from <= to <= s@.len(),
    ensures
        r@ == s@.subrange(from as int, to as int),
{
    let mut out: Vec<u8> = Vec::new();
    let mut i: usize = from;
    while i < to
        invariant
            from <= i <= to <= s@.len(),
            out@ == s@.subrange(from as int, i as int),
        decreases to - i,
    {
        out.push(s[i]);
        i = i + 1;
        assert(out@ =~= s@.subrange(from as int, i as int));
    }
    out
}

/// Reads a command frame back into its command and argument.
pub fn parse_command(frame: &[u8]) -> (r: Option<(Vec<u8>, Vec<u8>)>)
    ensures
        match parse_command_frame(frame@) {
            Some((c, a)) => match r {
                Some((x, y)) => x@ == c && y@ == a,
                None => false,
            },
            None => r is None,
        },
{
    if frame.len() < 8 {
        return None;
    }
    let cl = read_be32(frame, 4) as usize;
    if frame.len() < 12 || frame.len() - 12 < cl {
        return None;
    }
    let al = read_be32(frame, 8 + cl);
    let total = read_be32(frame, 0);
    if total as usize != frame.len() || frame.len() - 12 - cl != al as usize {
        return None;
    }
    let cmd = copy_range(frame, 8, 8 + cl);
    let arg = copy_range(frame, 12 + cl, frame.len());
    Some((cmd, arg))
}

/// The header field stored big-endian at `at` in the twelve header bytes.
pub open spec fn header_field(h: Seq<u8>, at: int) -> u32 {
    be32_at(h, at) as u32
}

/// Decodes the three header fields of a response frame, rejecting a declared
/// message length over the limit before any body is read.
pub fn parse_response_header(header: &[u8]) -> (r: Result<ResponseHeader, CodecError>)
    requires
        header@.len() == RESPONSE_HEADER_LEN,
    ensures
        header_field(header@, 8) > MAX_MESSAGE_LEN <==> r is Err,
        r is Err ==> r->Err_0 == (CodecError::TooLong { length: header_field(header@, 8) }),
        r is Ok ==> r->Ok_0 == (ResponseHeader {
            total_size: header_field(header@, 0),
            return_code: header_field(header@, 4),
            message_length: header_field(header@, 8),
        }),
{
    let total_size = read_be32(header, 0);
    let return_code = read_be32(header, 4);
    let message_length = read_be32(header, 8);
    if message_length > MAX_MESSAGE_LEN {
        Err(CodecError::TooLong { length: message_length })
    } else {
        Ok(ResponseHeader { total_size, return_code, message_length })
    }
}

/// Checks that the body read after a header holds exactly the declared
/// number of bytes; fewer means the peer closed the connection early.
pub fn check_body(message_length: u32, body: Vec<u8>) -> (r: Result<Vec<u8>, CodecError>)
    ensures
        body@.len() != message_length <==> r is Err,
        r is Err ==> r->Err_0 == (CodecError::Incomplete {
            expected: message_length as usize,
            actual: body@.len() as usize,
        }),
        r is Ok ==> r->Ok_0@ == body@,
{
    let expected = message_length as usize;
    if body.len() != expected {
        let actual = body.len();
        Err(CodecError::Incomplete { expected, actual })
    } else {
        Ok(body)
    }
}

} // verus!
