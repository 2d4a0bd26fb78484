use suricato::obj_parser::{parse_face, parse_u32, OBJParseError};

#[test]
fn parse_u32_reads_plain_decimals() {
    assert_eq!(parse_u32(b"0"), Ok(0));
    assert_eq!(parse_u32(b"12345"), Ok(12345));
    assert_eq!(parse_u32(b"+7"), Ok(7));
    assert_eq!(parse_u32(b"4294967295"), Ok(u32::MAX));
}

#[test]
fn parse_u32_rejects_bad_input() {
    assert_eq!(parse_u32(b""), Err(OBJParseError::InvalidInt));
    assert_eq!(parse_u32(b"+"), Err(OBJParseError::InvalidInt));
    assert_eq!(parse_u32(b"12a"), Err(OBJParseError::InvalidInt));
    assert_eq!(parse_u32(b"-3"), Err(OBJParseError::InvalidInt));
    assert_eq!(parse_u32(b"4294967296"), Err(OBJParseError::InvalidInt));
    assert_eq!(parse_u32(b"99999999999999999999"), Err(OBJParseError::InvalidInt));
}

#[test]
fn parse_face_reads_three_indices() {
    assert_eq!(parse_face("1/2/3"), Ok([1, 2, 3]));
    assert_eq!(parse_face("10/20/30"), Ok([10, 20, 30]));
    assert_eq!(parse_face("+1/+2/+3"), Ok([1, 2, 3]));
}

#[test]
fn parse_face_reports_missing_separators() {
    assert_eq!(parse_face("1"), Err(OBJParseError::MissingData));
    assert_eq!(parse_face("1/2"), Err(OBJParseError::MissingData));
}

#[test]
fn parse_face_reports_bad_numbers() {
    assert_eq!(parse_face(""), Err(OBJParseError::InvalidInt));
    assert_eq!(parse_face("a/2/3"), Err(OBJParseError::InvalidInt));
    assert_eq!(parse_face("1//3"), Err(OBJParseError::InvalidInt));
    assert_eq!(parse_face("1/2/x"), Err(OBJParseError::InvalidInt));
}

#[test]
fn parse_face_rejects_a_fourth_part() {
    assert_eq!(parse_face("1/2/3/4"), Err(OBJParseError::CommandHasTooManyParameters));
    assert_eq!(parse_face("1/2/3/"), Err(OBJParseError::CommandHasTooManyParameters));
}
