use kafka_protocol::error::{ParseResponseErrorCode, ResponseError};

#[test]
fn error_code_ok() {
    assert_eq!(0.ok(), Some(()));
    assert_eq!((-1).ok(), None);
    assert_eq!(100.ok(), None);
    assert_eq!(1000.ok(), None);
}

#[test]
fn error_code_err() {
    assert_eq!(0.err(), None);
    assert_eq!((-1).err(), Some(ResponseError::UnknownServerError));
    assert_eq!(100.err(), Some(ResponseError::UnknownTopicId));
    assert_eq!(1000.err(), Some(ResponseError::Unknown(1000)));
}

#[test]
fn error_code_is_ok() {
    assert_eq!(0.is_ok(), true);
    assert_eq!((-1).is_ok(), false);
    assert_eq!(100.is_ok(), false);
    assert_eq!(1000.is_ok(), false);
}

#[test]
fn error_code_is_err() {
    assert_eq!(0.is_err(), false);
    assert_eq!((-1).is_err(), true);
    assert_eq!(100.is_err(), true);
    assert_eq!(1000.is_err(), true);
}

#[test]
fn error_codes_round_trip() {
    for code in i16::MIN..=i16::MAX {
        match ResponseError::try_from_code(code) {
            None => assert_eq!(code, 0),
            Some(e) => {
                assert_eq!(e.code(), code);
                let known = code == -1 || (1..=133).contains(&code);
                assert_eq!(matches!(e, ResponseError::Unknown(_)), !known);
            }
        }
    }
}

#[test]
fn error_names_and_retriable() {
    assert_eq!(ResponseError::CorruptMessage.try_as_str(), Ok("CorruptMessage"));
    assert_eq!(ResponseError::Unknown(-7).try_as_str(), Err(-7));
    assert!(ResponseError::CorruptMessage.is_retriable());
    assert!(!ResponseError::OffsetOutOfRange.is_retriable());
    assert!(!ResponseError::Unknown(5).is_retriable());
    assert!(ResponseError::ShareSessionLimitReached.is_retriable());
    assert_eq!(ResponseError::ShareSessionLimitReached.code(), 133);
    assert_eq!(ResponseError::Unknown(0).code(), 0);
    assert_eq!(ResponseError::try_from_code(134), Some(ResponseError::Unknown(134)));
    assert_eq!(ResponseError::try_from_code(-2), Some(ResponseError::Unknown(-2)));
}
