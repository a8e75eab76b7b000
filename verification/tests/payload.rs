use aiken_tooling::payload::{read_flag, read_offset, read_payload, PayloadError};

#[test]
fn reads_a_flag_and_an_offset() {
    assert_eq!(read_payload("false,10"), Ok((false, 10)));
    assert_eq!(read_payload("true,50"), Ok((true, 50)));
    assert_eq!(read_payload("false,5"), Ok((false, 5)));
    assert_eq!(read_payload("true,0"), Ok((true, 0)));
}

#[test]
fn an_offset_may_have_a_plus_and_leading_zeros() {
    assert_eq!(read_payload("true,+7"), Ok((true, 7)));
    assert_eq!(read_payload("true,007"), Ok((true, 7)));
    assert_eq!(read_offset("+0"), Some(0));
    assert_eq!(read_offset("1234567890"), Some(1234567890));
}

#[test]
fn the_largest_offset_is_read_and_the_next_is_not() {
    let max = usize::MAX.to_string();
    assert_eq!(read_offset(&max), Some(usize::MAX));
    let mut digits: Vec<u8> = max.into_bytes();
    let last = digits.len() - 1;
    digits[last] += 1;
    let next = String::from_utf8(digits).unwrap();
    assert_eq!(read_offset(&next), None);
    assert_eq!(read_offset("99999999999999999999999999999999"), None);
    assert_eq!(
        read_payload("true,99999999999999999999999999999999"),
        Err(PayloadError::NotAUsize)
    );
}

#[test]
fn what_is_no_offset() {
    for field in ["", "+", "-", "-5", "+-5", "++5", " 5", "5 ", "5_000", "0x10", "1.5", "five", "٣"] {
        assert_eq!(read_offset(field), None);
        assert_eq!(read_offset(field), field.parse::<usize>().ok());
    }
}

#[test]
fn offsets_are_read_as_the_standard_library_reads_them() {
    for field in ["0", "00", "+12", "18446744073709551615", "18446744073709551616", "4294967296"] {
        assert_eq!(read_offset(field), field.parse::<usize>().ok());
    }
}

#[test]
fn what_is_a_flag() {
    assert_eq!(read_flag("true"), Some(true));
    assert_eq!(read_flag("false"), Some(false));
    for field in ["", "True", "FALSE", "1", "0", " true", "true ", "notabool", "yes"] {
        assert_eq!(read_flag(field), None);
    }
}

#[test]
fn a_payload_has_two_fields() {
    assert_eq!(read_payload(""), Err(PayloadError::NotATuple));
    assert_eq!(read_payload("true"), Err(PayloadError::NotATuple));
    assert_eq!(read_payload("10"), Err(PayloadError::NotATuple));
    assert_eq!(read_payload("true,1,2"), Err(PayloadError::NotATuple));
    assert_eq!(read_payload("true,1,"), Err(PayloadError::NotATuple));
    assert_eq!(read_payload(",,"), Err(PayloadError::NotATuple));
}

#[test]
fn a_flag_that_is_none_is_told() {
    assert_eq!(read_payload("notabool,10"), Err(PayloadError::NotABool));
    assert_eq!(read_payload(",10"), Err(PayloadError::NotABool));
    assert_eq!(read_payload(" true,10"), Err(PayloadError::NotABool));
}

#[test]
fn an_offset_that_is_none_is_told_first() {
    assert_eq!(read_payload("true,"), Err(PayloadError::NotAUsize));
    assert_eq!(read_payload("true, 10"), Err(PayloadError::NotAUsize));
    assert_eq!(read_payload("true,-1"), Err(PayloadError::NotAUsize));
    assert_eq!(read_payload("notabool,abc"), Err(PayloadError::NotAUsize));
    assert_eq!(read_payload(","), Err(PayloadError::NotAUsize));
}

#[test]
fn errors_in_words() {
    assert_eq!(
        PayloadError::NotATuple.message(),
        "malformed unused_imports arguments: not a 2-tuple"
    );
    assert_eq!(
        PayloadError::NotAUsize.message(),
        "malformed unused_imports argument: not a usize"
    );
    assert_eq!(
        PayloadError::NotABool.message(),
        "malformed unused_imports argument: not a bool"
    );
}

#[test]
fn what_is_written_is_read_back() {
    for is_qualified in [true, false] {
        for start in [0usize, 1, 9, 10, 99, 100, 12345, 4294967295, usize::MAX] {
            let payload = format!("{is_qualified},{start}");
            assert_eq!(read_payload(&payload), Ok((is_qualified, start)));
        }
    }
}
