use refcountd::session::{format_count_line, parse_command, ByteCommand};

#[test]
fn command_bytes_decode() {
    assert_eq!(parse_command(b'+'), ByteCommand::Increment);
    assert_eq!(parse_command(b'-'), ByteCommand::Decrement);
    assert_eq!(parse_command(b'c'), ByteCommand::QueryCount);
    assert_eq!(parse_command(b'q'), ByteCommand::Exit);
    assert_eq!(parse_command(b'Q'), ByteCommand::ForceExit);
}

#[test]
fn other_bytes_are_ignored() {
    assert_eq!(parse_command(b'C'), ByteCommand::Ignored);
    assert_eq!(parse_command(b'\n'), ByteCommand::Ignored);
    assert_eq!(parse_command(b' '), ByteCommand::Ignored);
    assert_eq!(parse_command(0), ByteCommand::Ignored);
    assert_eq!(parse_command(255), ByteCommand::Ignored);
}

#[test]
fn count_line_is_decimal_ascii_with_newline() {
    assert_eq!(format_count_line(0), b"0\n");
    assert_eq!(format_count_line(1), b"1\n");
    assert_eq!(format_count_line(9), b"9\n");
    assert_eq!(format_count_line(10), b"10\n");
    assert_eq!(format_count_line(305), b"305\n");
    assert_eq!(format_count_line(1234567890), b"1234567890\n");
    assert_eq!(format_count_line(u64::MAX), b"18446744073709551615\n");
}
