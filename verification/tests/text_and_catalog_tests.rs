use win11_tweaks::command::OptionCandidate;
use win11_tweaks::data_type::DataType;
use win11_tweaks::def::key_path_display;
use win11_tweaks::def::RegDef;
use win11_tweaks::def::Root;
use win11_tweaks::error::Error;
use win11_tweaks::reg_edit_options::default_edit_options;
use win11_tweaks::reg_edit_options::find_option_index;
use win11_tweaks::reg_edit_options::Builder;
use win11_tweaks::text::parse_u32;
use win11_tweaks::text::u32_to_decimal;
use win11_tweaks::value::Value;

#[test]
fn decimal_rendering() {
    assert_eq!(u32_to_decimal(0), "0");
    assert_eq!(u32_to_decimal(7), "7");
    assert_eq!(u32_to_decimal(42), "42");
    assert_eq!(u32_to_decimal(4096), "4096");
    assert_eq!(u32_to_decimal(u32::MAX), "4294967295");
}

#[test]
fn parse_accepts_plain_and_plus_signed_numerals() {
    assert_eq!(parse_u32("0").unwrap(), 0);
    assert_eq!(parse_u32("42").unwrap(), 42);
    assert_eq!(parse_u32("+42").unwrap(), 42);
    assert_eq!(parse_u32("007").unwrap(), 7);
    assert_eq!(parse_u32("4294967295").unwrap(), u32::MAX);
}

#[test]
fn parse_rejects_malformed_numerals() {
    for bad in ["", "+", "abc", "1a", "-1", " 42", "42 ", "4294967296", "99999999999"] {
        match parse_u32(bad) {
            Err(Error::ParseError(t)) => assert_eq!(t, bad),
            _ => panic!("input {:?} must be rejected", bad),
        }
    }
}

#[test]
fn parse_and_render_round_trip() {
    for n in [0u32, 1, 42, 65535, u32::MAX] {
        assert_eq!(parse_u32(&u32_to_decimal(n)).unwrap(), n);
    }
}

#[test]
fn root_names() {
    assert_eq!(Root::CurrentUser.str(), "HKCU");
    assert_eq!(Root::Users.str(), "HKU");
}

#[test]
fn location_display_includes_value_name() {
    let def = RegDef::hkcu("Software\\Test", "LaunchTo", DataType::DWord);
    assert_eq!(def.display_string(), "HKCU\\Software\\Test\\LaunchTo");
}

#[test]
fn location_display_omits_empty_value_name() {
    let def = RegDef::hkcu("Software\\Test", "", DataType::String);
    assert_eq!(def.display_string(), "HKCU\\Software\\Test");
}

#[test]
fn location_display_under_users_root() {
    let def = RegDef::hku("S-1-5-21-7\\Software\\Test", "HideFileExt", DataType::DWord);
    assert_eq!(def.display_string(), "HKU\\S-1-5-21-7\\Software\\Test\\HideFileExt");
    assert_eq!(key_path_display(&Root::Users, "S-1-5-21-7"), "HKU\\S-1-5-21-7");
}

#[test]
fn value_display_forms() {
    let d = Value::DWord(42);
    assert_eq!(d.display_string(), "42");
    let s = Value::String(String::from("hello"));
    assert_eq!(s.display_string(), "hello");
}

#[test]
fn error_messages() {
    assert_eq!(Error::Win32Error(5).message(), "Win32 Error: 5");
    assert_eq!(
        Error::SubkeyNotFound(String::from("HKCU\\Missing")).message(),
        "Subkey not found (HKCU\\Missing)"
    );
    assert_eq!(
        Error::ValueNameNotFound(String::from("LaunchTo")).message(),
        "Value Name not found (LaunchTo)"
    );
    assert_eq!(Error::UnknownDataType(99).message(), "Unknown data type: 99");
    assert_eq!(
        Error::UnexpectedDataType(("REG_DWORD", "REG_SZ")).message(),
        "Unexpected data type (expected: REG_DWORD, actual: REG_SZ)"
    );
    assert_eq!(
        Error::ParseError(String::from("abc")).message(),
        "Parse error (abc)"
    );
}

#[test]
fn builder_assigns_sequential_ids() {
    let mut b = Builder::with_capacity(2);
    b.push(
        "first",
        RegDef::hkcu("Software\\A", "x", DataType::DWord),
        vec![OptionCandidate::new("0", "off"), OptionCandidate::new("1", "on")],
    );
    b.push("second", RegDef::hkcu("Software\\B", "y", DataType::DWord), vec![]);
    let opts = b.into_vec();
    assert_eq!(opts.len(), 2);
    assert_eq!(opts[0].id, 1);
    assert_eq!(opts[1].id, 2);
    assert_eq!(opts[0].label, "first");
    assert_eq!(opts[0].values.len(), 2);
    assert_eq!(opts[0].values[1].value, "1");
    assert_eq!(opts[0].values[1].description, "on");
}

#[test]
fn catalog_has_seven_sequential_entries() {
    let opts = default_edit_options("S-1-5-21-7");
    assert_eq!(opts.len(), 7);
    for (i, o) in opts.iter().enumerate() {
        assert_eq!(o.id, (i + 1) as u64);
    }
    // Entries under the all-users root carry the supplied identifier.
    assert_eq!(
        opts[1].def.display_string(),
        "HKU\\S-1-5-21-7\\Software\\Microsoft\\Windows\\CurrentVersion\\Explorer\\Advanced\\LaunchTo"
    );
    assert_eq!(
        opts[3].def.display_string(),
        "HKCU\\SOFTWARE\\Microsoft\\Windows\\CurrentVersion\\Explorer\\Advanced\\TaskbarAl"
    );
}

#[test]
fn lookup_by_id() {
    let opts = default_edit_options("S-1-5-21-7");
    assert_eq!(find_option_index(&opts, 1), Some(0));
    assert_eq!(find_option_index(&opts, 7), Some(6));
    assert_eq!(find_option_index(&opts, 0), None);
    assert_eq!(find_option_index(&opts, 8), None);
}
