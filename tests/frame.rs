use ws_frame::{
    get_bit, plain_text, unmask, DecodeError, FrameField, PayloadLength, WebSocketFrame,
    WebSocketOpCode,
};

fn short_text_frame() -> Vec<u8> {
    base64::decode("gYR7q0rdD845qQ==").unwrap()
}

fn assert_same_lines(actual: &str, expected: &str) {
    for (a, e) in actual.lines().zip(expected.lines()) {
        assert_eq!(a, e);
    }
    assert_eq!(actual, expected);
}

fn expected_short_text_diagram() -> String {
    [
        "               +---------------+---------------+---------------+---------------+\n",
        "  Frame Data   |    Byte  1    |    Byte  2    |    Byte  3    |    Byte  4    |\n",
        "   (Masked)    +---------------+---------------+---------------+---------------+\n",
        "   Short(4)    |0              |    1          |        2      |            3  |\n",
        "               |0 1 2 3 4 5 6 7|8 9 0 1 2 3 4 5|6 7 8 9 0 1 2 3|4 5 6 7 8 9 0 1|\n",
        "       +-------+---------------+---------------+---------------+---------------+\n",
        "       | DWORD |1|0|0|0|0 0 0 1|1|0 0 0 0 1 0 0|0 1 1 1 1 0 1 1|1 0 1 0 1 0 1 1|\n",
        "       |   1   |F|R|R|R| Text  |M|   4 bytes   |                               |\n",
        "       |       |I|S|S|S|op code|A| Payload len |     Masking-key (part 1)      |\n",
        "       |       |N|V|V|V| (4 b) |S|  (7 bits)   |           (16 bits)           |\n",
        "       |       | |1|2|3|       |K|             |                               |\n",
        "       +-------+-+-+-+-+-------+-+-------------+-------------------------------+\n",
        "       | DWORD |0 1 0 0 1 0 1 0|1 1 0 1 1 1 0 1|0 0 0 0 1 1 1 1|1 1 0 0 1 1 1 0|\n",
        "       |   2   |                               |  (15)      MASKED  (206)      |\n",
        "       |       |     Masking-key (part 2)      |0 1 1 1 0 1 0 0|0 1 1 0 0 1 0 1|\n",
        "       |       |           (16 bits)           | (116) 't' UNMASKED (101) 'e'  |\n",
        "       |       |                               |     Payload Data (part 1)     |\n",
        "       +-------+-------------------------------+-------------------------------+\n",
        "       | DWORD |0 0 1 1 1 0 0 1|1 0 1 0 1 0 0 1|\n",
        "       |   3   |  (57)      MASKED  (169)      |\n",
        "       |       |0 1 1 1 0 0 1 1|0 1 1 1 0 1 0 0|\n",
        "       |       | (115) 's' UNMASKED (116) 't'  |\n",
        "       |       |     Payload Data (part 2)     |\n",
        "       +-------+---------------+---------------+\n",
    ]
    .concat()
}

/// Tests that a short length frame with a masked text payload is formatted correctly.
#[test]
fn test_short_masked_text_frame() {
    let bytes = short_text_frame();
    let frame = WebSocketFrame::from_bytes(&bytes).unwrap();
    println!("{}", frame.format());
    assert_same_lines(&frame.format_plain(), &expected_short_text_diagram());
}

/// Tests that a medium length frame with a masked text payload is formatted correctly.
#[test]
fn test_medium_masked_text_frame() {
    // Medium length
    let medium_bytes = base64::decode("gf4Ago6okLi/mqOMu56ngLeYoYq9nKWOuZCpiL+ao4y7nqeAt5ihir2cpY65kKmIv5qjjLuep4C3mKGKvZyljrmQqYi/mqOMu56ngLeYoYq9nKWOuZCpiL+ao4y7nqeAt5ihir2cpY65kKmIv5qjjLuep4C3mKGKvZyljrmQqYi/mqOMu56ngLeY").unwrap();
    let medium_frame = WebSocketFrame::from_bytes(&medium_bytes).unwrap();

    println!("{}", medium_frame.format());

    assert_eq!(medium_frame.payload_length, PayloadLength::Medium(130));
    let text = medium_frame.format_plain();
    assert!(text.contains("Medium(130)"));
    assert!(text.contains("126: Medium"));
    assert!(text.contains("| (0)       130 bytes     (130) |"));
    assert!(text.contains("|     Masking-key (part 1)      |     Masking-key (part 2)      |"));
    assert_eq!(medium_frame.masking_key, [0x8e, 0xa8, 0x90, 0xb8]);
    assert_eq!(medium_frame.unmasked_payload.len(), 130);
    assert_eq!(&medium_frame.unmasked_payload[..12], b"123456789012");
    let rows = medium_frame.payload_rows();
    assert_eq!(rows.len(), 33);
    assert_eq!((rows[0].from_byte_ix, rows[0].to_byte_ix, rows[0].dword_number), (0, 4, 3));
    assert_eq!((rows[0].part_number, rows[1].part_number, rows[31].part_number), (0, 2, 62));
    assert_eq!((rows[32].from_byte_ix, rows[32].to_byte_ix, rows[32].part_number), (128, 130, 64));
    assert!(text.contains("|  35   |"));
    assert!(text.contains("Payload Data (part 64)"));
}

fn strip_escapes(s: &str) -> String {
    let mut out = String::new();
    let mut in_escape = false;
    for c in s.chars() {
        if in_escape {
            if c == 'm' {
                in_escape = false;
            }
        } else if c == '\u{1b}' {
            in_escape = true;
        } else {
            out.push(c);
        }
    }
    out
}

#[test]
fn short_text_frame_with_and_without_colour() {
    let bytes = short_text_frame();
    let frame = WebSocketFrame::from_bytes(&bytes).unwrap();

    colored::control::set_override(true);
    let text = frame.format();
    assert_ne!(text, frame.format_plain());
    assert!(text.starts_with("               \u{1b}[36m+---------------+"));
    assert!(text.contains("\u{1b}[36m|\u{1b}[0m\u{1b}[32m    Byte  1    \u{1b}[0m"));
    assert!(text.contains("\u{1b}[34m(116)\u{1b}[0m \u{1b}[31m't'\u{1b}[0m \u{1b}[35mUNMASKED\u{1b}[0m"));
    assert!(text.contains("\u{1b}[33m0 1 1 1 0 0 1 1\u{1b}[0m"));
    assert_same_lines(&strip_escapes(&text), &expected_short_text_diagram());

    colored::control::set_override(false);
    assert_same_lines(&frame.format(), &expected_short_text_diagram());
}

#[test]
fn decodes_header_fields() {
    let bytes = short_text_frame();
    let frame = WebSocketFrame::from_bytes(&bytes).unwrap();
    assert!(frame.fin_bit);
    assert!(!frame.rsv1 && !frame.rsv2 && !frame.rsv3);
    assert_eq!(frame.opcode, WebSocketOpCode::Text);
    assert_eq!(frame.opcode_bits, 1);
    assert!(frame.mask_bit);
    assert!(frame.is_payload_masked);
    assert_eq!(frame.payload_length_code, 4);
    assert_eq!(frame.payload_length, PayloadLength::Short(4));
    assert_eq!(frame.masking_key, [0x7b, 0xab, 0x4a, 0xdd]);
    assert_eq!(frame.masked_payload, &[0x0f, 0xce, 0x39, 0xa9][..]);
    assert_eq!(frame.unmasked_payload, b"test".to_vec());
    assert_eq!(frame.payload_chars, vec!['t', 'e', 's', 't']);
    assert_eq!(frame.frame_len, 10);
}

#[test]
fn end_to_end_abc() {
    let bytes = vec![0x81, 0x83, 0x5A, 0x0E, 0x91, 0x36, 0x3B, 0x6C, 0xF2];
    let frame = WebSocketFrame::from_bytes(&bytes).unwrap();
    assert!(frame.fin_bit);
    assert_eq!(frame.opcode, WebSocketOpCode::Text);
    assert!(frame.mask_bit);
    assert_eq!(frame.payload_length_code, 3);
    assert_eq!(frame.masking_key, [0x5A, 0x0E, 0x91, 0x36]);
    assert_eq!(frame.masked_payload, &[0x3B, 0x6C, 0xF2][..]);
    assert_eq!(frame.unmasked_payload, vec![0x61, 0x62, 0x63]);
    let text = frame.format_plain();
    assert!(text.contains("(97) 'a'"));
    assert!(text.contains("(98) 'b'"));
    assert!(text.contains("(99) 'c'"));
    assert!(text.contains("Payload pt 2"));
    let rows = frame.payload_rows();
    assert_eq!(rows.len(), 1);
    assert_eq!(rows[0].to_byte_ix - rows[0].from_byte_ix, 1);
    assert_eq!(rows[0].part_number, 2);
    assert_eq!(rows[0].dword_number, 3);
}

#[test]
fn folded_payload_has_no_generic_rows() {
    // Short frame with exactly two payload bytes.
    let short = vec![0x82, 0x82, 1, 2, 3, 4, 9, 9];
    let frame = WebSocketFrame::from_bytes(&short).unwrap();
    assert!(frame.payload_rows().is_empty());
    assert!(!frame.format_plain().contains("DWORD |\n       |   3"));
    assert!(!frame.format_plain().contains("|   3   |"));
    // Medium frame with an empty payload.
    let medium = vec![0x82, 0xFE, 0x00, 0x00, 1, 2, 3, 4];
    let frame = WebSocketFrame::from_bytes(&medium).unwrap();
    assert_eq!(frame.payload_length, PayloadLength::Medium(0));
    assert!(frame.payload_rows().is_empty());
    assert!(!frame.format_plain().contains("|   3   |"));
}

#[test]
fn five_byte_short_payload_has_one_three_byte_row() {
    let bytes = vec![0x81, 0x85, 0, 0, 0, 0, b'h', b'e', b'l', b'l', b'o'];
    let frame = WebSocketFrame::from_bytes(&bytes).unwrap();
    let rows = frame.payload_rows();
    assert_eq!(rows.len(), 1);
    assert_eq!(rows[0].from_byte_ix, 2);
    assert_eq!(rows[0].to_byte_ix, 5);
    assert_eq!(rows[0].dword_number, 3);
    assert_eq!(rows[0].part_number, 2);
    let text = frame.format_plain();
    assert!(text.contains("Payload Data (part 2)"));
    assert!(text.trim_end().ends_with("+-------+---------------+---------------+---------------+"));
    assert!(text.contains("(108) 'l' UNMASKED (108) 'l'  | (111) 'o' UNM |"));
}

#[test]
fn bad_row_ranges_render_an_error_marker() {
    let bytes = vec![0x81, 0x88, 0, 0, 0, 0, 1, 2, 3, 4, 5, 6, 7, 8];
    let frame = WebSocketFrame::from_bytes(&bytes).unwrap();
    let empty = plain_text(&frame.format_payload_dword_row(2, 2, 3, 2));
    assert!(empty.contains("from_byte_ix: 2"));
    assert!(empty.contains("to_byte_ix: 2"));
    assert!(empty.starts_with("ERROR"));
    let wide = plain_text(&frame.format_payload_dword_row(2, 7, 3, 2));
    assert_eq!(
        wide,
        "ERROR: Cannot print dword row. Illegal byte indexes provided. from_byte_ix: 2 to_byte_ix: 7"
    );
    let past_end = plain_text(&frame.format_payload_dword_row(6, 9, 3, 2));
    assert!(past_end.contains("from_byte_ix: 6") && past_end.contains("to_byte_ix: 9"));
    // The whole diagram still renders.
    assert!(frame.format_plain().contains("Payload Data (part 2)"));
}

#[test]
fn four_byte_row_layout() {
    let bytes = vec![0x81, 0x86, 0, 0, 0, 0, b'a', b'b', b'c', b'd', b'e', b'f'];
    let frame = WebSocketFrame::from_bytes(&bytes).unwrap();
    let row = plain_text(&frame.format_payload_dword_row(2, 6, 3, 2));
    let expected = [
        "       | DWORD |0 1 1 0 0 0 1 1|0 1 1 0 0 1 0 0|0 1 1 0 0 1 0 1|0 1 1 0 0 1 1 0|\n",
        "       |   3   |  (99)      MASKED  (100)      | (101)      MASKED  (102)      |\n",
        "       |       |0 1 1 0 0 0 1 1|0 1 1 0 0 1 0 0|0 1 1 0 0 1 0 1|0 1 1 0 0 1 1 0|\n",
        "       |       |  (99) 'c' UNMASKED (100) 'd'  | (101) 'e' UNMASKED (102) 'f'  |\n",
        "       |       |                     Payload Data (part 2)                     |\n",
        "       +-------+---------------+---------------+---------------+---------------+\n",
    ]
    .concat();
    assert_eq!(row, expected);
}

#[test]
fn one_byte_row_layout() {
    let bytes = vec![0x81, 0x83, 0, 0, 0, 0, b'a', b'b', b'c'];
    let frame = WebSocketFrame::from_bytes(&bytes).unwrap();
    let row = plain_text(&frame.format_payload_dword_row(2, 3, 3, 2));
    let expected = [
        "       | DWORD |0 1 1 0 0 0 1 1|\n",
        "       |   3   |  (99)     MSK |\n",
        "       |       |0 1 1 0 0 0 1 1|\n",
        "       |       |  (99) 'c' UNM |\n",
        "       |       | Payload pt 2  |\n",
        "       +-------+---------------+\n",
    ]
    .concat();
    assert_eq!(row, expected);
}

#[test]
fn long_frame_rows_start_at_four() {
    let mut bytes = vec![0x82, 0xFF, 0, 0, 0, 0, 0, 0, 0, 7, 1, 2, 3, 4];
    bytes.extend_from_slice(&[10, 20, 30, 40, 50, 60, 70]);
    let frame = WebSocketFrame::from_bytes(&bytes).unwrap();
    assert_eq!(frame.payload_length, PayloadLength::Long(7));
    assert_eq!(frame.payload_length_bytes, vec![0, 0, 0, 0, 0, 0, 0, 7]);
    let rows = frame.payload_rows();
    assert_eq!(rows.len(), 2);
    assert_eq!((rows[0].from_byte_ix, rows[0].to_byte_ix, rows[0].dword_number, rows[0].part_number), (2, 6, 4, 2));
    assert_eq!((rows[1].from_byte_ix, rows[1].to_byte_ix, rows[1].dword_number, rows[1].part_number), (6, 7, 5, 4));
    let text = frame.format_plain();
    assert!(text.contains("127: Long"));
    assert!(text.contains("Payload length (Part 1 of 4)"));
    assert!(text.contains("Long(7)"));
    assert!(text.contains("Payload pt 4"));
    assert!(text.contains("Payload length (part 3 of 4)"));
    assert!(text.contains("|   3   | Payload length (part 4 of 4)  |     Masking-key (part 1)      |"));
    assert!(text.contains("|0 0 0 0 0 0 0 0|0 0 0 0 0 1 1 1|0 0 0 0 0 0 0 1|0 0 0 0 0 0 1 0|"));
    assert!(text.contains("|0 0 0 0 0 0 1 1|0 0 0 0 0 1 0 0|0 0 0 0 1 0 1 0|0 0 0 1 0 1 0 0|"));
    assert!(text.contains(" (10)      MASKED   (20)      |"));
    assert!(text.contains(" (11) '\u{b}' UNMASKED  (22) '\u{16}'  |"));
    assert!(text.contains("|   4   |"));
    assert!(!text.contains("|   6   |"));
}

#[test]
fn short_frame_with_one_payload_byte_renders() {
    let bytes = vec![0x81, 0x81, 0, 0, 0, 0, b'z'];
    let frame = WebSocketFrame::from_bytes(&bytes).unwrap();
    assert!(frame.payload_rows().is_empty());
    let text = frame.format_plain();
    assert!(text.contains("(122) 'z' UNMASKED ERROR: Cannot print dword row. Illegal byte indexes provided. from_byte_ix: 1 to_byte_ix: 2"));
    assert!(text.contains("| (122)      MASKED  ERROR: Cannot print dword row."));
    assert!(text.contains("Payload Data (part 1)"));
}

#[test]
fn decode_errors() {
    assert_eq!(
        WebSocketFrame::from_bytes(&vec![0x81]).err(),
        Some(DecodeError::MalformedInput { field: FrameField::Header, offset: 0, expected: 2, actual: 1 })
    );
    assert_eq!(
        WebSocketFrame::from_bytes(&vec![0x81, 0x03, 1, 2, 3]).err(),
        Some(DecodeError::UnsupportedVariant)
    );
    assert_eq!(
        WebSocketFrame::from_bytes(&vec![0x81, 0xFE, 0]).err(),
        Some(DecodeError::MalformedInput { field: FrameField::ExtendedLength, offset: 2, expected: 2, actual: 1 })
    );
    assert_eq!(
        WebSocketFrame::from_bytes(&vec![0x81, 0xFF, 0, 0, 0, 0, 0, 0, 0, 1, 9, 9]).err(),
        Some(DecodeError::MalformedInput { field: FrameField::MaskingKey, offset: 10, expected: 4, actual: 2 })
    );
    assert_eq!(
        WebSocketFrame::from_bytes(&vec![0x81, 0x84, 1, 2, 3, 4, 5, 6]).err(),
        Some(DecodeError::MalformedInput { field: FrameField::Payload, offset: 6, expected: 4, actual: 2 })
    );
}

#[test]
fn bytes_after_the_announced_payload_are_rejected() {
    let bytes = vec![0x81, 0x81, 1, 1, 1, 1, 0x61, 0x62];
    assert_eq!(
        WebSocketFrame::from_bytes(&bytes).err(),
        Some(DecodeError::MalformedInput { field: FrameField::Payload, offset: 6, expected: 1, actual: 2 })
    );
}

#[test]
fn unmask_is_its_own_inverse() {
    let key = [0x5A, 0x0E, 0x91, 0x36];
    let payload = vec![0x00, 0xFF, 0x10, 0x20, 0x30, 0x40, 0x50];
    let once = unmask(&payload, &key);
    assert_ne!(once, payload);
    assert_eq!(once[0], 0x5A);
    assert_eq!(once[4], 0x30 ^ 0x5A);
    assert_eq!(unmask(&once, &key), payload);
    assert_eq!(unmask(&[], &key), Vec::<u8>::new());
}

#[test]
fn short_length_codes() {
    for code in 0..=125u8 {
        let length = WebSocketFrame::get_payload_length(code, vec![]);
        assert_eq!(length, PayloadLength::Short(code));
        assert_eq!(length.extension_len(), 0);
    }
}

#[test]
fn medium_length_code() {
    let length = WebSocketFrame::get_payload_length(126, vec![0x00, 0x05]);
    assert_eq!(length, PayloadLength::Medium(5));
    assert_eq!(length.extension_len(), 2);
    assert_eq!(WebSocketFrame::get_payload_length(126, vec![0x01, 0x02]), PayloadLength::Medium(258));
}

#[test]
fn long_length_code() {
    let length = WebSocketFrame::get_payload_length(127, vec![0, 0, 0, 0, 0, 0, 0, 10]);
    assert_eq!(length, PayloadLength::Long(10));
    assert_eq!(length.extension_len(), 8);
    assert_eq!(
        WebSocketFrame::get_payload_length(127, vec![0xFF; 8]),
        PayloadLength::Long(u64::MAX)
    );
    assert_eq!(
        WebSocketFrame::get_payload_length(127, vec![1, 0, 0, 0, 0, 0, 0, 0]),
        PayloadLength::Long(1u64 << 56)
    );
}

#[test]
fn bit_readers() {
    assert!(get_bit(0b1000_0000, 0));
    assert!(!get_bit(0b1000_0000, 1));
    assert!(get_bit(0b0000_0001, 7));
    assert!(!get_bit(0xFF, 8));
    assert_eq!(ws_frame::byte_str(0b1010_0101, 8), "1 0 1 0 0 1 0 1");
    assert_eq!(ws_frame::byte_str(0b1010_0101, 4), "0 1 0 1");
    assert_eq!(ws_frame::byte_str(0xFF, 0), "");
    assert_eq!(ws_frame::bit_str(true), "1");
    assert_eq!(ws_frame::get_bits_from_byte(0x81, 0x0F), 1);
}

#[test]
fn payload_length_text() {
    assert_eq!(PayloadLength::Short(4).to_string(), "Short (4 bytes)");
    assert_eq!(PayloadLength::Medium(300).to_string(), "Medium (300 bytes)");
    assert_eq!(PayloadLength::Long(70000).to_string(), "Long (70000 bytes)");
}

#[test]
fn long_frame_without_payload_marks_the_missing_bytes() {
    let bytes = vec![0x82, 0xFF, 0, 0, 0, 0, 0, 0, 0, 0, 1, 2, 3, 4];
    let frame = WebSocketFrame::from_bytes(&bytes).unwrap();
    assert_eq!(frame.payload_length, PayloadLength::Long(0));
    assert!(frame.payload_rows().is_empty());
    let text = frame.format_plain();
    assert!(text.contains("from_byte_ix: 0 to_byte_ix: 1"));
    assert!(text.contains("from_byte_ix: 1 to_byte_ix: 2"));
}

#[test]
fn medium_frame_has_no_third_fixed_row() {
    let bytes = vec![0x82, 0xFE, 0x00, 0x01, 1, 2, 3, 4, 0x55];
    let frame = WebSocketFrame::from_bytes(&bytes).unwrap();
    assert!(frame.format_third_dword().is_empty());
    let text = frame.format_plain();
    assert!(text.contains("|   3   |"));
    assert!(text.contains("Payload pt 0"));
}

#[test]
fn close_and_continuation_frames_render_rectangular() {
    let close = vec![0x88, 0x86, 0, 0, 0, 0, 0x03, 0xE8, b'b', b'y', b'e', b'!'];
    let frame = WebSocketFrame::from_bytes(&close).unwrap();
    assert_eq!(frame.opcode, WebSocketOpCode::CloseConnection);
    let text = frame.format_plain();
    assert!(text.contains("| Close |"));
    for line in text.lines() {
        assert_eq!(line.chars().count(), 80, "{}", line);
    }

    let mut long = vec![0x00, 0xFF, 0, 0, 0, 0, 0, 0, 0, 6, 0, 0, 0, 0];
    long.extend_from_slice(&[65, 66, 67, 68, 69, 70]);
    let frame = WebSocketFrame::from_bytes(&long).unwrap();
    assert_eq!(frame.opcode, WebSocketOpCode::Continuation);
    let text = frame.format_plain();
    assert!(text.contains("| Cont  |"));
    for line in text.lines() {
        assert_eq!(line.chars().count(), 80, "{}", line);
    }
}
