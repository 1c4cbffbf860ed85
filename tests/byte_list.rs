use ws_frame::ByteList;

#[test]
fn test_one_byte() {
    let data = vec![129];
    let table: ByteList = ByteList::from_bytes(&data);

    let expected = "       +--------+--------+--------+--------+--------+--------+--------+--------+\n Bytes | Byte 0 | Byte 1 | Byte 2 | Byte 3 | Byte 4 | Byte 5 | Byte 6 | Byte 7 |\n+------+--------+--------+--------+--------+--------+--------+--------+--------+\n|QWORD |10000001|\n|  1   |   (129)|\n+------+--------+\n";

    assert_eq!(expected, table.format());
}

#[test]
fn full_qword_then_empty_row() {
    let data: Vec<u8> = (0..8).collect();
    let table = ByteList::from_bytes(&data);
    let text = table.format();
    assert!(text.contains("|QWORD |00000000|00000001|00000010|00000011|00000100|00000101|00000110|00000111|\n"));
    assert!(text.contains("|  1   |     (0)|     (1)|     (2)|     (3)|     (4)|     (5)|     (6)|     (7)|\n"));
    assert!(text.ends_with("|QWORD |\n|  2   |\n+------+\n"));
}

#[test]
fn qword_row_length_mismatch() {
    let data = vec![1, 2, 3];
    let table = ByteList::from_bytes(&data);
    assert_eq!(
        table.format_qword_row(4, &data, 8),
        "ERROR: Data must contain exactly 8 bytes. QWORD: 4\n"
    );
}
