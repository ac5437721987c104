use acme_server::codec::{
    check_body, generate_command, generate_upload_arg, parse_command, parse_response_header,
    CodecError, ResponseHeader,
};

#[test]
fn command_frame_layout() {
    let frame = generate_command(b"sleep\0", b"1\0");
    assert_eq!(
        frame,
        vec![0, 0, 0, 20, 0, 0, 0, 6, b's', b'l', b'e', b'e', b'p', 0, 0, 0, 0, 2, b'1', 0]
    );
}

#[test]
fn command_round_trip() {
    let cmd = b"invoke\0".to_vec();
    let arg = b"ls -al\0".to_vec();
    let frame = generate_command(&cmd, &arg);
    assert_eq!(frame.len(), 12 + cmd.len() + arg.len());
    assert_eq!(u32::from_be_bytes([frame[0], frame[1], frame[2], frame[3]]) as usize, frame.len());
    assert_eq!(parse_command(&frame), Some((cmd, arg)));
}

#[test]
fn command_round_trip_empty() {
    let frame = generate_command(b"", b"");
    assert_eq!(frame, vec![0, 0, 0, 12, 0, 0, 0, 0, 0, 0, 0, 0]);
    assert_eq!(parse_command(&frame), Some((vec![], vec![])));
}

#[test]
fn parse_command_rejects_bad_lengths() {
    let mut frame = generate_command(b"hostname\0", b"\0");
    frame[3] += 1;
    assert_eq!(parse_command(&frame), None);
    assert_eq!(parse_command(&[0, 0, 0]), None);
}

#[test]
fn upload_arg_layout() {
    let arg = generate_upload_arg(b"/p", b"abc");
    assert_eq!(arg, vec![0, 0, 0, 2, b'/', b'p', 0, 0, 0, 3, b'a', b'b', b'c']);
}

#[test]
fn header_fields_are_big_endian() {
    let h = [0, 0, 1, 2, 0, 0, 0, 7, 0, 0, 0x27, 0x10];
    assert_eq!(
        parse_response_header(&h),
        Ok(ResponseHeader { total_size: 258, return_code: 7, message_length: 10000 })
    );
}

#[test]
fn oversized_message_is_rejected() {
    let h = [0, 0, 0, 0, 0, 0, 0, 0, 0, 0, 0x27, 0x11];
    assert_eq!(parse_response_header(&h), Err(CodecError::TooLong { length: 10001 }));
    let h = [0, 0, 0, 0, 0, 0, 0, 0, 0xff, 0xff, 0xff, 0xff];
    assert_eq!(parse_response_header(&h), Err(CodecError::TooLong { length: u32::MAX }));
}

#[test]
fn short_body_is_incomplete() {
    assert_eq!(check_body(5, vec![1, 2]), Err(CodecError::Incomplete { expected: 5, actual: 2 }));
    assert_eq!(check_body(5, vec![1, 2, 3, 4, 5]), Ok(vec![1, 2, 3, 4, 5]));
    assert_eq!(check_body(0, vec![]), Ok(vec![]));
}
