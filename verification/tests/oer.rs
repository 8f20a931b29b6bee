use interledger::errors::ParseError;
use interledger::oer::{read_octet, read_var_octet_string};

#[test]
fn reads_single_octets_until_the_end() {
    let bytes: Vec<u8> = vec![7, 255];
    let mut reader: &[u8] = &bytes;
    assert_eq!(read_octet(&mut reader), Ok(7));
    assert_eq!(reader, &[255u8][..]);
    assert_eq!(read_octet(&mut reader), Ok(255));
    assert_eq!(read_octet(&mut reader), Err(ParseError::UnexpectedEnd));
    assert!(reader.is_empty());
}

#[test]
fn reads_the_empty_string() {
    let mut reader: &[u8] = &[0, 9];
    assert_eq!(read_var_octet_string(&mut reader), Ok(vec![]));
    assert_eq!(reader, &[9u8][..]);
}

#[test]
fn reads_a_short_string_and_leaves_what_follows() {
    let mut reader: &[u8] = &[3, 1, 2, 3, 4, 5];
    assert_eq!(read_var_octet_string(&mut reader), Ok(vec![1, 2, 3]));
    assert_eq!(reader, &[4u8, 5][..]);
}

#[test]
fn reads_the_longest_string_with_a_length_of_one_byte() {
    let mut bytes: Vec<u8> = vec![127];
    bytes.extend(vec![6; 127]);
    let mut reader: &[u8] = &bytes;
    assert_eq!(read_var_octet_string(&mut reader), Ok(vec![6; 127]));
    assert!(reader.is_empty());
}

#[test]
fn reads_lengths_of_several_bytes() {
    let mut bytes: Vec<u8> = vec![0x82, 1, 2];
    bytes.extend(vec![5; 258]);
    bytes.push(77);
    let mut reader: &[u8] = &bytes;
    assert_eq!(read_var_octet_string(&mut reader), Ok(vec![5; 258]));
    assert_eq!(reader, &[77u8][..]);
}

#[test]
fn reads_a_length_that_is_written_longer_than_needed() {
    let mut reader: &[u8] = &[0x88, 0, 0, 0, 0, 0, 0, 0, 2, 10, 11, 12];
    assert_eq!(read_var_octet_string(&mut reader), Ok(vec![10, 11]));
    assert_eq!(reader, &[12u8][..]);
}

#[test]
fn rejects_a_length_of_no_bytes_or_of_more_than_eight() {
    let mut reader: &[u8] = &[0x80, 1, 2];
    assert_eq!(read_var_octet_string(&mut reader), Err(ParseError::InvalidLength));
    assert_eq!(reader, &[0x80u8, 1, 2][..]);
    let nine: Vec<u8> = vec![0x89, 0, 0, 0, 0, 0, 0, 0, 0, 1, 4];
    let mut reader: &[u8] = &nine;
    assert_eq!(read_var_octet_string(&mut reader), Err(ParseError::InvalidLength));
    assert_eq!(reader, &nine[..]);
}

#[test]
fn rejects_bytes_that_end_early() {
    let cut: Vec<Vec<u8>> = vec![
        vec![],
        vec![2, 1],
        vec![0x82, 1],
        vec![0x81, 3, 1, 2],
        vec![0x88, 255, 255, 255, 255, 255, 255, 255, 255, 1],
    ];
    for bytes in cut {
        let mut reader: &[u8] = &bytes;
        assert_eq!(read_var_octet_string(&mut reader), Err(ParseError::UnexpectedEnd));
        assert_eq!(reader, &bytes[..]);
    }
}
