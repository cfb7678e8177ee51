use win11_tweaks::data_type::DataType;
use win11_tweaks::def::Root;
use win11_tweaks::error::Error;
use win11_tweaks::key_handler::check_no_key_error;
use win11_tweaks::key_handler::create_outcome;
use win11_tweaks::key_handler::open_outcome;
use win11_tweaks::key_handler::read_outcome;
use win11_tweaks::key_handler::require_settable_type;
use win11_tweaks::key_handler::require_stored_type;
use win11_tweaks::key_handler::value_info_outcome;
use win11_tweaks::key_handler::write_outcome;
use win11_tweaks::key_handler::KeyHandler;
use win11_tweaks::key_handler::ValueInfo;
use win11_tweaks::registry::Registry;
use win11_tweaks::value::Value;

#[test]
fn data_type_native_tags() {
    assert_eq!(DataType::DWord.value(), 4);
    assert_eq!(DataType::String.value(), 1);
    assert_eq!(DataType::Binary.value(), 3);
    assert_eq!(DataType::QWord.value(), 11);
    assert_eq!(DataType::MultiString.value(), 7);
    assert_eq!(DataType::ExpandString.value(), 2);
}

#[test]
fn data_type_tag_round_trip() {
    for d in [
        DataType::Binary,
        DataType::DWord,
        DataType::QWord,
        DataType::String,
        DataType::MultiString,
        DataType::ExpandString,
    ] {
        match DataType::try_from(d.value()) {
            Ok(back) => assert_eq!(back, d),
            Err(_) => panic!("round trip must succeed"),
        }
    }
}

#[test]
fn data_type_unknown_tag_is_rejected() {
    for tag in [0u32, 5, 6, 8, 99] {
        match DataType::try_from(tag) {
            Err(Error::UnknownDataType(t)) => assert_eq!(t, tag),
            _ => panic!("tag {} must be rejected", tag),
        }
    }
}

#[test]
fn data_type_names() {
    assert_eq!(DataType::DWord.str(), "REG_DWORD");
    assert_eq!(DataType::String.str(), "REG_SZ");
}

#[test]
fn not_found_code_is_the_only_no_key_code() {
    assert!(check_no_key_error(2));
    assert!(!check_no_key_error(0));
    assert!(!check_no_key_error(5));
}

#[test]
fn open_missing_subkey_reports_the_exact_path() {
    match open_outcome(&Root::CurrentUser, "no\\such\\key", 2) {
        Err(Error::SubkeyNotFound(p)) => assert_eq!(p, "HKCU\\no\\such\\key"),
        _ => panic!("expected SubkeyNotFound"),
    }
}

#[test]
fn open_outcome_other_codes() {
    assert!(open_outcome(&Root::CurrentUser, "k", 0).is_ok());
    match open_outcome(&Root::CurrentUser, "k", 5) {
        Err(Error::Win32Error(c)) => assert_eq!(c, 5),
        _ => panic!("expected Win32Error"),
    }
}

#[test]
fn create_and_read_outcomes() {
    assert!(create_outcome(0).is_ok());
    assert!(matches!(create_outcome(2), Err(Error::Win32Error(2))));
    assert!(read_outcome(0).is_ok());
    assert!(matches!(read_outcome(5), Err(Error::Win32Error(5))));
}

#[test]
fn write_outcome_maps_not_found_to_value_name() {
    assert!(write_outcome("LaunchTo", 0).is_ok());
    match write_outcome("LaunchTo", 2) {
        Err(Error::ValueNameNotFound(n)) => assert_eq!(n, "LaunchTo"),
        _ => panic!("expected ValueNameNotFound"),
    }
    assert!(matches!(write_outcome("LaunchTo", 5), Err(Error::Win32Error(5))));
}

#[test]
fn query_of_absent_value_reports_value_name_not_found() {
    let vi = value_info_outcome(2, 0, 0).unwrap();
    assert!(vi.is_none());
    match require_stored_type(&vi, DataType::DWord, "NeverSet") {
        Err(Error::ValueNameNotFound(n)) => assert_eq!(n, "NeverSet"),
        _ => panic!("expected ValueNameNotFound"),
    }
}

#[test]
fn query_reports_stored_type_and_length() {
    let vi = value_info_outcome(0, 4, 4).unwrap().unwrap();
    assert_eq!(vi.data_type(), DataType::DWord);
    assert_eq!(vi.len(), 4);
}

#[test]
fn query_rejects_unknown_stored_tag() {
    match value_info_outcome(0, 99, 4) {
        Err(Error::UnknownDataType(t)) => assert_eq!(t, 99),
        _ => panic!("expected UnknownDataType"),
    }
}

#[test]
fn dword_read_of_string_value_is_a_type_mismatch() {
    let vi = Some(ValueInfo::new(DataType::String, 10));
    match require_stored_type(&vi, DataType::DWord, "x") {
        Err(Error::UnexpectedDataType((expected, actual))) => {
            assert_eq!(expected, "REG_DWORD");
            assert_eq!(actual, "REG_SZ");
        }
        _ => panic!("expected UnexpectedDataType"),
    }
}

#[test]
fn matching_stored_type_passes_through() {
    let vi = Some(ValueInfo::new(DataType::DWord, 4));
    let v = require_stored_type(&vi, DataType::DWord, "x").unwrap();
    assert_eq!(v.data_type(), DataType::DWord);
    assert_eq!(v.len(), 4);
}

#[test]
fn set_type_check_accepts_absent_value() {
    assert!(require_settable_type(&None, DataType::DWord).is_ok());
    let vi = Some(ValueInfo::new(DataType::DWord, 4));
    assert!(require_settable_type(&vi, DataType::DWord).is_ok());
}

#[test]
fn set_type_check_rejects_mismatch() {
    let vi = Some(ValueInfo::new(DataType::String, 10));
    match require_settable_type(&vi, DataType::DWord) {
        Err(Error::UnexpectedDataType((expected, actual))) => {
            assert_eq!(expected, "REG_DWORD");
            assert_eq!(actual, "REG_SZ");
        }
        _ => panic!("expected UnexpectedDataType"),
    }
}

#[test]
fn set_value_with_malformed_text_fails_before_any_write() {
    match Registry::set_value_payload(DataType::DWord, "abc") {
        Err(Error::ParseError(t)) => assert_eq!(t, "abc"),
        _ => panic!("expected ParseError"),
    }
}

#[test]
fn set_then_get_round_trip_through_the_wire_form() {
    let bytes = Registry::set_value_payload(DataType::DWord, "42").unwrap();
    assert_eq!(bytes, vec![42, 0, 0, 0]);
    match Registry::decoded_value(DataType::DWord, &bytes) {
        Value::DWord(n) => assert_eq!(n, 42),
        _ => panic!("expected a DWord value"),
    }
    // After the test subkey is deleted, the open step reports the path.
    match open_outcome(&Root::CurrentUser, "Software\\FreshTestSubkey", 2) {
        Err(Error::SubkeyNotFound(p)) => assert_eq!(p, "HKCU\\Software\\FreshTestSubkey"),
        _ => panic!("expected SubkeyNotFound"),
    }
}

#[test]
fn two_handles_release_independently() {
    let mut first = KeyHandler::new(1001);
    let mut second = KeyHandler::new(1002);
    assert_eq!(first.take_for_release(), Some(1001));
    // The first handle is now released for good ...
    assert_eq!(first.take_for_release(), None);
    // ... and the second is still live and releasable.
    assert_eq!(second.raw(), 1002);
    assert_eq!(second.take_for_release(), Some(1002));
    assert_eq!(second.take_for_release(), None);
}
