use avspeechsynthesizer::error::{
    check_c_string, error_from_status, optional_reply, required_reply, result_from_status,
};
use avspeechsynthesizer::status;
use avspeechsynthesizer::AvSpeechError;

#[test]
fn status_codes_pick_the_error_variant() {
    let m = || Some("boom".to_owned());
    assert_eq!(error_from_status(status::INVALID_ARGUMENT, m()), AvSpeechError::InvalidArgument("boom".to_owned()));
    assert_eq!(
        error_from_status(status::UNAVAILABLE_ON_THIS_MACOS, m()),
        AvSpeechError::UnavailableOnThisMacOS("boom".to_owned())
    );
    assert_eq!(error_from_status(status::TIMED_OUT, m()), AvSpeechError::TimedOut("boom".to_owned()));
    assert_eq!(error_from_status(status::IO_ERROR, m()), AvSpeechError::Io("boom".to_owned()));
    assert_eq!(error_from_status(status::FRAMEWORK_ERROR, m()), AvSpeechError::Framework("boom".to_owned()));
    assert_eq!(error_from_status(status::UNKNOWN, m()), AvSpeechError::Unknown("boom".to_owned()));
    assert_eq!(error_from_status(7, m()), AvSpeechError::Unknown("boom".to_owned()));
}

#[test]
fn missing_bridge_message_names_the_status_code() {
    assert_eq!(
        error_from_status(status::IO_ERROR, None),
        AvSpeechError::Io("Swift bridge call failed with status code -4".to_owned())
    );
    assert_eq!(
        error_from_status(12, None),
        AvSpeechError::Unknown("Swift bridge call failed with status code 12".to_owned())
    );
    assert_eq!(
        error_from_status(i32::MIN, None).message(),
        "Swift bridge call failed with status code -2147483648"
    );
}

#[test]
fn only_the_ok_status_succeeds() {
    assert_eq!(result_from_status(status::OK, Some("ignored".to_owned())), Ok(()));
    assert_eq!(
        result_from_status(status::TIMED_OUT, None),
        Err(AvSpeechError::TimedOut("Swift bridge call failed with status code -3".to_owned()))
    );
}

#[test]
fn replies_without_a_value_are_errors() {
    assert_eq!(required_reply(Some("en-US".to_owned()), "current language code"), Ok("en-US".to_owned()));
    assert_eq!(
        required_reply(None, "current language code"),
        Err(AvSpeechError::Unknown("missing current language code response from Swift bridge".to_owned()))
    );
    assert_eq!(optional_reply::<u8>(None, Some(3)), Ok(Some(3)));
    assert_eq!(optional_reply::<u8>(None, None), Ok(None));
    assert_eq!(
        optional_reply(Some("failed".to_owned()), Some(3u8)),
        Err(AvSpeechError::Unknown("failed".to_owned()))
    );
}

#[test]
fn c_strings_reject_interior_nul() {
    assert_eq!(check_c_string("en-US"), Ok(()));
    assert_eq!(check_c_string(""), Ok(()));
    assert_eq!(
        check_c_string("en\0US"),
        Err(AvSpeechError::InvalidArgument("string contained an interior NUL byte".to_owned()))
    );
}

#[test]
fn error_message_is_the_carried_text() {
    assert_eq!(AvSpeechError::Framework("f".to_owned()).message(), "f");
    assert_eq!(AvSpeechError::InvalidArgument("bad".to_owned()).message(), "bad");
}
