use acme_server::byte_format::ByteFormat;

#[test]
fn test_bytes() {
    let b = [1, 2, 3, 4, 5, 6, 7, 8, 9, 65];
    let bytes = ByteFormat(&b);
    let shown = bytes.render(None, None, true);
    assert_eq!(shown, "01 02 03 04 05 06 07 08 09 \x1b[31m A\x1b[m ");
}

#[test]
fn plain_rendering_shows_letters_and_hex() {
    let b = [1u8, 2, 3, 4, 5, 6, 7, 8, 9, 65];
    assert_eq!(ByteFormat(&b).to_string(), "01 02 03 04 05 06 07 08 09  A ");
}

#[test]
fn hex_is_upper_case_and_digits_show_as_characters() {
    let b = [0xabu8, 0xff, b'7', b'z', b' '];
    assert_eq!(ByteFormat(&b).to_string(), "AB FF  7  z 20 ");
}

#[test]
fn width_wraps_into_rows() {
    let b = [1u8, 2, 3, 4, 5];
    assert_eq!(ByteFormat(&b).render(Some(2), None, false), "01 02 \n03 04 \n05 \n");
}

#[test]
fn precision_cuts_and_marks_with_ellipsis() {
    let b = [1u8, 2, 3, 4, 5];
    assert_eq!(ByteFormat(&b).render(None, Some(3), false), "01 02 ...");
    assert_eq!(ByteFormat(&b).render(None, Some(5), false), "01 02 03 04 05 ");
    assert_eq!(ByteFormat(&b).render(None, Some(9), false), "01 02 03 04 05 ");
    assert_eq!(ByteFormat(&b).render(None, Some(0), false), "");
}

#[test]
fn width_and_precision_together() {
    let b: Vec<u8> = (0u8..100).collect();
    let shown = ByteFormat(&b).render(Some(16), Some(64), false);
    let lines: Vec<&str> = shown.lines().collect();
    assert_eq!(lines.len(), 4);
    assert!(shown.ends_with("3E ...\n"));
}

#[test]
fn empty_bytes_render_empty() {
    let b: [u8; 0] = [];
    assert_eq!(ByteFormat(&b).to_string(), "");
    assert_eq!(ByteFormat(&b).render(Some(16), Some(64), false), "");
}
