use mp3lame_encoder::{BuildError, EncodeError};

#[test]
fn config_codes_map_to_named_kinds() {
    assert_eq!(BuildError::from_c_int(-1), Err(BuildError::Generic));
    assert_eq!(BuildError::from_c_int(-10), Err(BuildError::NoMem));
    assert_eq!(BuildError::from_c_int(-11), Err(BuildError::BadBRate));
    assert_eq!(BuildError::from_c_int(-12), Err(BuildError::BadSampleFreq));
    assert_eq!(BuildError::from_c_int(-13), Err(BuildError::InternalError));
}

#[test]
fn config_unknown_negative_codes_are_kept_verbatim() {
    assert_eq!(BuildError::from_c_int(-2), Err(BuildError::Other(-2)));
    assert_eq!(BuildError::from_c_int(-7), Err(BuildError::Other(-7)));
    assert_eq!(BuildError::from_c_int(-100), Err(BuildError::Other(-100)));
    assert_eq!(BuildError::from_c_int(i32::MIN), Err(BuildError::Other(i32::MIN)));
}

#[test]
fn config_non_negative_codes_are_success() {
    assert_eq!(BuildError::from_c_int(0), Ok(()));
    assert_eq!(BuildError::from_c_int(1), Ok(()));
    assert_eq!(BuildError::from_c_int(i32::MAX), Ok(()));
}

#[test]
fn encode_codes_map_to_named_kinds() {
    assert_eq!(EncodeError::from_c_int(-1), Err(EncodeError::BufferTooSmall));
    assert_eq!(EncodeError::from_c_int(-2), Err(EncodeError::NoMem));
    assert_eq!(EncodeError::from_c_int(-3), Err(EncodeError::InvalidState));
    assert_eq!(EncodeError::from_c_int(-4), Err(EncodeError::PsychoAcoustic));
}

#[test]
fn encode_unknown_negative_codes_are_kept_verbatim() {
    assert_eq!(EncodeError::from_c_int(-5), Err(EncodeError::Other(-5)));
    assert_eq!(EncodeError::from_c_int(-10), Err(EncodeError::Other(-10)));
    assert_eq!(EncodeError::from_c_int(i32::MIN), Err(EncodeError::Other(i32::MIN)));
}

#[test]
fn encode_non_negative_codes_carry_the_byte_count() {
    assert_eq!(EncodeError::from_c_int(0), Ok(0));
    assert_eq!(EncodeError::from_c_int(417), Ok(417));
    assert_eq!(EncodeError::from_c_int(i32::MAX), Ok(i32::MAX as usize));
}
