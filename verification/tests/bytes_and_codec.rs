use lib::bytes::{bytes_equal, contains, copy_bytes, json_method_is, looks_json};
use lib::codec::{read_standard_size, standard_method};
use lib::logline::platform_message_log_line;

#[test]
fn bytes_equal_compares_whole_strings() {
    assert!(bytes_equal(b"flutter/lifecycle", b"flutter/lifecycle"));
    assert!(!bytes_equal(b"flutter/lifecycle", b"flutter/lifecyclx"));
    assert!(!bytes_equal(b"flutter", b"flutter/lifecycle"));
    assert!(bytes_equal(b"", b""));
}

#[test]
fn contains_finds_substrings() {
    assert!(contains(b"{\"method\":\"getAll\"}", b"getAll"));
    assert!(contains(b"abc", b"abc"));
    assert!(contains(b"xxabc", b"abc"));
    assert!(!contains(b"abx", b"abc"));
    assert!(!contains(b"ab", b"abc"));
}

#[test]
fn contains_edge_cases() {
    assert!(contains(b"", b""));
    assert!(contains(b"anything", b""));
    assert!(!contains(b"", b"a"));
}

#[test]
fn json_method_is_matches_method_names() {
    assert!(json_method_is(b"{\"method\":\"getString\",\"args\":\"ro.miui.region\"}", b"getString"));
    assert!(!json_method_is(b"{\"method\":\"getInt\"}", b"getString"));
}

#[test]
fn looks_json_checks_first_non_space_byte() {
    assert!(looks_json(b"{\"method\":1}"));
    assert!(looks_json(b"[1]"));
    assert!(looks_json(b"  \t\r\n{"));
    assert!(!looks_json(b"\x07\x06getAll"));
    assert!(!looks_json(b""));
    assert!(!looks_json(b"        {"));
    assert!(looks_json(b"       {"));
    assert!(!looks_json(b"   x{"));
}

#[test]
fn copy_bytes_keeps_room_for_terminator() {
    let mut output = [0u8; 5];
    let mut position = 0usize;
    copy_bytes(&mut output, &mut position, b"ab");
    assert_eq!(position, 2);
    copy_bytes(&mut output, &mut position, b"cdef");
    assert_eq!(position, 4);
    assert_eq!(&output, b"abcd\0");
    copy_bytes(&mut output, &mut position, b"z");
    assert_eq!(position, 4);
    assert_eq!(&output, b"abcd\0");
}

#[test]
fn copy_bytes_past_end_changes_nothing() {
    let mut output = [9u8; 3];
    let mut position = 7usize;
    copy_bytes(&mut output, &mut position, b"abc");
    assert_eq!(position, 7);
    assert_eq!(output, [9u8; 3]);
}

#[test]
fn read_standard_size_reads_all_three_forms() {
    let mut position = 0usize;
    assert_eq!(read_standard_size(&[5, 1], &mut position), Some(5));
    assert_eq!(position, 1);

    let mut position = 1usize;
    assert_eq!(read_standard_size(&[0, 254, 0x34, 0x12], &mut position), Some(0x1234));
    assert_eq!(position, 4);

    let mut position = 0usize;
    assert_eq!(read_standard_size(&[255, 0x78, 0x56, 0x34, 0x12, 9], &mut position), Some(0x12345678));
    assert_eq!(position, 5);

    let mut position = 0usize;
    assert_eq!(read_standard_size(&[253], &mut position), Some(253));
    assert_eq!(position, 1);
}

#[test]
fn read_standard_size_fails_on_short_input() {
    let mut position = 3usize;
    assert_eq!(read_standard_size(&[1, 2, 3], &mut position), None);
    assert_eq!(position, 3);

    let mut position = 0usize;
    assert_eq!(read_standard_size(&[254, 1], &mut position), None);
    assert_eq!(position, 1);

    let mut position = 0usize;
    assert_eq!(read_standard_size(&[255, 1, 2, 3], &mut position), None);
    assert_eq!(position, 1);
}

#[test]
fn standard_method_reads_method_name() {
    assert_eq!(standard_method(b"\x07\x06getAll\x0d\x00"), Some(&b"getAll"[..]));
    assert_eq!(standard_method(b"\x07\x06reload"), Some(&b"reload"[..]));
    assert_eq!(standard_method(b"\x07\x00"), Some(&b""[..]));
    assert_eq!(standard_method(b"\x07\x07reload"), None);
    assert_eq!(standard_method(b"\x08\x06getAll"), None);
    assert_eq!(standard_method(b""), None);
    assert_eq!(standard_method(b"\x07"), None);
}

#[test]
fn standard_method_roundtrip_long_names() {
    let name: Vec<u8> = (0..300u32).map(|i| b'a' + (i % 26) as u8).collect();
    let mut payload = vec![7u8, 254, (300 % 256) as u8, (300 / 256) as u8];
    payload.extend_from_slice(&name);
    payload.extend_from_slice(b"\x00\x01");
    assert_eq!(standard_method(&payload), Some(&name[..]));

    let mut payload = vec![7u8, 255, (300 % 256) as u8, (300 / 256) as u8, 0, 0];
    payload.extend_from_slice(&name);
    assert_eq!(standard_method(&payload), Some(&name[..]));
}

#[test]
fn log_line_formats_channel_and_payload() {
    let line = platform_message_log_line(b"weather_channel", b"ab\ncd\x00\x7f\xff e");
    assert_eq!(line, b"channel=weather_channel payload=ab.cd... e\0".to_vec());
}

#[test]
fn log_line_limits_payload_excerpt() {
    let payload = vec![b'x'; 500];
    let line = platform_message_log_line(b"c", &payload);
    let mut expected = b"channel=c payload=".to_vec();
    expected.extend(std::iter::repeat(b'x').take(384));
    expected.push(0);
    assert_eq!(line, expected);
}

#[test]
fn log_line_is_cut_to_buffer() {
    let channel = vec![b'c'; 700];
    let line = platform_message_log_line(&channel, b"payload");
    assert_eq!(line.len(), 640);
    assert_eq!(&line[..8], b"channel=");
    assert!(line[8..639].iter().all(|&b| b == b'c'));
    assert_eq!(line[639], 0);

    let channel = vec![b'c'; 620];
    let line = platform_message_log_line(&channel, b"abcdefghijklmnopqrstuvwxyz");
    assert_eq!(line.len(), 640);
    assert_eq!(&line[628..639], b" payload=ab");
    assert_eq!(line[639], 0);
}

#[test]
fn two_copies_equal_one_copy_of_both() {
    for capacity in [1usize, 3, 5, 8, 12] {
        for start in 0..capacity + 2 {
            let mut twice = vec![b'.'; capacity];
            let mut twice_position = start;
            copy_bytes(&mut twice, &mut twice_position, b"abc");
            copy_bytes(&mut twice, &mut twice_position, b"defg");
            let mut once = vec![b'.'; capacity];
            let mut once_position = start;
            copy_bytes(&mut once, &mut once_position, b"abcdefg");
            assert_eq!(twice, once);
            assert_eq!(twice_position, once_position);
        }
    }
}

#[test]
fn standard_size_round_trips_at_any_offset() {
    for size in [0usize, 5, 253, 254, 300, 0xffff, 0x10000, 0x12345678] {
        let encoded: Vec<u8> = if size < 254 {
            vec![size as u8]
        } else if size <= 0xffff {
            let mut e = vec![254u8];
            e.extend_from_slice(&(size as u16).to_le_bytes());
            e
        } else {
            let mut e = vec![255u8];
            e.extend_from_slice(&(size as u32).to_le_bytes());
            e
        };
        let mut payload = vec![9u8, 8, 7];
        payload.extend_from_slice(&encoded);
        payload.extend_from_slice(b"rest");
        let mut position = 3usize;
        assert_eq!(read_standard_size(&payload, &mut position), Some(size));
        assert_eq!(position, 3 + encoded.len());
    }
}
