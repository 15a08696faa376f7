use bincode_grpc::codec::{check_read, check_write, ReadError, WriteError};

#[test]
fn read_of_full_length_succeeds() {
    assert_eq!(check_read(4, Ok(4)), Ok(()));
    assert_eq!(check_read(0, Ok(0)), Ok(()));
}

#[test]
fn short_read_names_both_counts() {
    assert_eq!(check_read(4, Ok(3)), Err(ReadError::ArrayLengthMismatch { found: 3, required: 4 }));
}

#[test]
fn failed_read_keeps_message() {
    assert_eq!(check_read(4, Err("boom".to_string())), Err(ReadError::OtherString("boom".to_string())));
}

#[test]
fn write_outcomes() {
    assert_eq!(check_write(2, Ok(2)), Ok(()));
    assert_eq!(check_write(2, Ok(1)), Err(WriteError::Other("Wanted {req_len} got {n}")));
    assert_eq!(check_write(2, Err("full".to_string())), Err(WriteError::OtherString("full".to_string())));
}
