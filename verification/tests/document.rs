use icloud_auth::document::{Dictionary, PlistDate, PlistValue, FIRST_DATE_SECS, LAST_DATE_SECS};
use icloud_auth::error::{AbsintheError, AnisetteError, ClearAdiError, Error, NacError};
use icloud_auth::util::{plist_to_buf, plist_to_string};

fn document_dict(entries: Vec<(&str, PlistValue)>) -> Dictionary {
    Dictionary { entries: entries.into_iter().map(|(k, v)| (k.to_string(), v)).collect() }
}

#[test]
fn dictionary_get_finds_the_first_entry() {
    let dict = document_dict(vec![
        ("a", PlistValue::Integer(1)),
        ("b", PlistValue::String("x".to_string())),
        ("a", PlistValue::Integer(2)),
    ]);
    assert_eq!(dict.get("a").unwrap().as_signed_integer(), Some(1));
    assert_eq!(dict.get_str("b"), Some("x"));
    assert!(dict.get("c").is_none());
    assert!(dict.get("A").is_none());
    assert_eq!(dict.len(), 3);
    assert_eq!(Dictionary::new().len(), 0);
}

#[test]
fn dictionary_insert_replaces_in_place_or_appends() {
    let mut dict = document_dict(vec![("a", PlistValue::Integer(1)), ("b", PlistValue::Integer(2))]);
    dict.insert("a", PlistValue::Integer(10));
    dict.insert("c", PlistValue::Integer(3));
    let keys: Vec<&str> = dict.entries.iter().map(|(k, _)| k.as_str()).collect();
    assert_eq!(keys, vec!["a", "b", "c"]);
    assert_eq!(dict.get("a").unwrap().as_signed_integer(), Some(10));
    assert_eq!(dict.get("c").unwrap().as_signed_integer(), Some(3));
    dict.push("a", PlistValue::Integer(99));
    assert_eq!(dict.len(), 4);
    assert_eq!(dict.get("a").unwrap().as_signed_integer(), Some(10));
}

#[test]
fn value_accessors_check_the_kind() {
    let text = PlistValue::text("hello");
    assert_eq!(text.as_string(), Some("hello"));
    assert!(text.as_data().is_none());
    assert!(text.as_dictionary().is_none());
    assert!(text.as_boolean().is_none());
    assert!(text.as_signed_integer().is_none());
    assert!(text.as_unsigned_integer().is_none());
    let data = PlistValue::Data(vec![1, 2]);
    assert_eq!(data.as_data(), Some(&vec![1, 2]));
    assert!(data.as_string().is_none());
    assert_eq!(PlistValue::Boolean(true).as_boolean(), Some(true));
    let nested = PlistValue::dictionary(document_dict(vec![("k", PlistValue::Integer(1))]));
    assert_eq!(nested.as_dictionary().unwrap().len(), 1);
    let dict = document_dict(vec![("d", PlistValue::Data(vec![7])), ("n", nested)]);
    assert_eq!(dict.get_bytes("d"), Some(&vec![7]));
    assert!(dict.get_bytes("n").is_none());
    assert!(dict.get_dict("n").is_some());
    assert!(dict.get_dict("d").is_none());
    assert!(dict.get_str("d").is_none());
}

#[test]
fn integers_fit_signed_or_unsigned() {
    let cases: Vec<(i128, Option<i64>, Option<u64>)> = vec![
        (0, Some(0), Some(0)),
        (-1, Some(-1), None),
        (i64::MAX as i128, Some(i64::MAX), Some(i64::MAX as u64)),
        (i64::MAX as i128 + 1, None, Some(i64::MAX as u64 + 1)),
        (u64::MAX as i128, None, Some(u64::MAX)),
        (u64::MAX as i128 + 1, None, None),
        (i64::MIN as i128, Some(i64::MIN), None),
        (i64::MIN as i128 - 1, None, None),
    ];
    for (value, signed, unsigned) in cases {
        assert_eq!(PlistValue::Integer(value).as_signed_integer(), signed);
        assert_eq!(PlistValue::Integer(value).as_unsigned_integer(), unsigned);
    }
}

#[test]
fn strings_become_an_array() {
    match PlistValue::strings(&vec!["a".to_string(), "b".to_string()]) {
        PlistValue::Array(items) => {
            assert_eq!(items.len(), 2);
            assert_eq!(items[0].as_string(), Some("a"));
            assert_eq!(items[1].as_string(), Some("b"));
        }
        _ => panic!("expected an array"),
    }
}


fn document_date(value: plist::Date) -> PlistDate {
    let time: std::time::SystemTime = value.into();
    match time.duration_since(std::time::UNIX_EPOCH) {
        Ok(after) => PlistDate::new(after.as_secs() as i64, after.subsec_nanos()).unwrap(),
        Err(before) => {
            let before = before.duration();
            if before.subsec_nanos() == 0 {
                PlistDate::new(-(before.as_secs() as i64), 0).unwrap()
            } else {
                PlistDate::new(-(before.as_secs() as i64) - 1, 1_000_000_000 - before.subsec_nanos())
                    .unwrap()
            }
        }
    }
}

fn document_value(value: plist::Value) -> PlistValue {
    match value {
        plist::Value::Array(items) => PlistValue::Array(items.into_iter().map(document_value).collect()),
        plist::Value::Dictionary(entries) => PlistValue::Dictionary(Dictionary {
            entries: entries.into_iter().map(|(k, v)| (k, document_value(v))).collect(),
        }),
        plist::Value::Boolean(b) => PlistValue::Boolean(b),
        plist::Value::Data(bytes) => PlistValue::Data(bytes),
        plist::Value::Date(d) => PlistValue::Date(document_date(d)),
        plist::Value::Real(r) => PlistValue::Real(r.to_string()),
        plist::Value::Integer(i) => match i.as_signed() {
            Some(signed) => PlistValue::Integer(signed.into()),
            None => PlistValue::Integer(i.as_unsigned().unwrap().into()),
        },
        plist::Value::String(text) => PlistValue::String(text),
        plist::Value::Uid(uid) => PlistValue::Uid(uid.get()),
        _ => panic!("unexpected kind of value"),
    }
}

fn document_read(bytes: &[u8]) -> Option<Dictionary> {
    match document_value(plist::from_bytes::<plist::Value>(bytes).ok()?) {
        PlistValue::Dictionary(entries) => Some(entries),
        _ => None,
    }
}

fn document_sample() -> Dictionary {
    document_dict(vec![
        ("text", PlistValue::text("héllo <&> wörld")),
        ("data", PlistValue::Data(vec![0, 1, 2, 254, 255])),
        ("yes", PlistValue::Boolean(true)),
        ("no", PlistValue::Boolean(false)),
        ("zero", PlistValue::Integer(0)),
        ("negative", PlistValue::Integer(-42)),
        ("least", PlistValue::Integer(i64::MIN as i128)),
        ("greatest", PlistValue::Integer(u64::MAX as i128)),
        ("real", PlistValue::Real("1.5".to_string())),
        ("date", PlistValue::Date(PlistDate::new(1_709_210_096, 0).unwrap())),
        ("old", PlistValue::Date(PlistDate::new(-86_400, 0).unwrap())),
        ("empty", PlistValue::Array(vec![])),
        (
            "list",
            PlistValue::Array(vec![
                PlistValue::Integer(1),
                PlistValue::text("two"),
                PlistValue::dictionary(document_dict(vec![("k", PlistValue::Boolean(true))])),
            ]),
        ),
        ("nested", PlistValue::dictionary(document_dict(vec![("inner", PlistValue::text("x"))]))),
    ])
}

#[test]
fn xml_property_lists_round_trip() {
    let sample = document_sample();
    let bytes = sample.encode_xml().unwrap();
    assert!(bytes.starts_with(b"<?xml"));
    let text = String::from_utf8(bytes.clone()).unwrap();
    assert!(text.contains("<date>2024-02-29T12:34:56Z</date>"));
    assert!(text.contains("<date>1969-12-31T00:00:00Z</date>"));
    assert!(text.contains("<integer>18446744073709551615</integer>"));
    let read = document_read(&bytes).unwrap();
    assert_eq!(format!("{:?}", read), format!("{:?}", sample));
}

#[test]
fn binary_property_lists_round_trip() {
    let mut sample = document_sample();
    sample.push("uid", PlistValue::Uid(7));
    let bytes = sample.encode_binary().unwrap();
    assert!(bytes.starts_with(b"bplist00"));
    let read = document_read(&bytes).unwrap();
    assert_eq!(format!("{:?}", read), format!("{:?}", sample));
    assert_ne!(bytes, sample.encode_xml().unwrap_or_default());
}

#[test]
fn dates_lie_between_the_years_1601_and_9999() {
    assert_eq!(FIRST_DATE_SECS, -11_644_473_600);
    assert_eq!(LAST_DATE_SECS, 253_402_300_799);
    assert!(PlistDate::new(FIRST_DATE_SECS, 0).is_some());
    assert!(PlistDate::new(FIRST_DATE_SECS - 1, 999_999_999).is_none());
    assert!(PlistDate::new(LAST_DATE_SECS, 999_999_999).is_some());
    assert!(PlistDate::new(LAST_DATE_SECS + 1, 0).is_none());
    assert!(PlistDate::new(0, 1_000_000_000).is_none());
    assert!(PlistDate::new(i64::MIN, 0).is_none());
    assert!(PlistDate::new(i64::MAX, 0).is_none());
    let before = PlistDate::new(-2, 500_000_000).unwrap();
    assert_eq!((before.secs(), before.nanos()), (-2, 500_000_000));
    let after = PlistDate::new(978_307_200, 1).unwrap();
    assert_eq!((after.secs(), after.nanos()), (978_307_200, 1));
}

#[test]
fn the_first_and_the_last_date_are_written_in_both_forms() {
    let edges = document_dict(vec![
        ("first", PlistValue::Date(PlistDate::new(FIRST_DATE_SECS, 0).unwrap())),
        ("last", PlistValue::Date(PlistDate::new(LAST_DATE_SECS, 0).unwrap())),
        ("fraction", PlistValue::Date(PlistDate::new(-2, 500_000_000).unwrap())),
    ]);
    let text = String::from_utf8(edges.encode_xml().unwrap()).unwrap();
    assert!(text.contains("<date>1601-01-01T00:00:00Z</date>"));
    assert!(text.contains("<date>9999-12-31T23:59:59Z</date>"));
    assert!(text.contains("<date>1969-12-31T23:59:58.5Z</date>"));
    assert!(edges.encode_binary().unwrap().starts_with(b"bplist00"));
}

#[test]
fn what_cannot_be_written_is_not_written() {
    let too_large = document_dict(vec![("i", PlistValue::Integer(u64::MAX as i128 + 1))]);
    assert!(too_large.encode_xml().is_none());
    assert!(too_large.encode_binary().is_none());
    let too_small = document_dict(vec![("i", PlistValue::Integer(i64::MIN as i128 - 1))]);
    assert!(too_small.encode_xml().is_none());
    let bad_real = document_dict(vec![("r", PlistValue::Array(vec![PlistValue::Real("x".to_string())]))]);
    assert!(bad_real.encode_binary().is_none());
    let uid = document_dict(vec![("u", PlistValue::Uid(1))]);
    assert!(uid.encode_xml().is_none());
    assert!(uid.encode_binary().is_some());
}

#[test]
fn property_lists_are_written_as_bytes_and_as_text() {
    let sample = document_dict(vec![("k", PlistValue::text("v"))]);
    let bytes = plist_to_buf(&sample).unwrap();
    let text = plist_to_string(&sample).unwrap();
    assert_eq!(text.as_bytes(), bytes.as_slice());
    assert!(text.contains("<key>k</key>"));
    assert!(text.contains("<string>v</string>"));
    let unwritable = document_dict(vec![("i", PlistValue::Integer(u64::MAX as i128 + 1))]);
    assert!(matches!(plist_to_buf(&unwritable), Err(Error::PlistError(_))));
    match plist_to_string(&unwritable) {
        Err(e) => assert_eq!(
            e.to_string(),
            "Failed to parse a plist cannot be written as a property list"
        ),
        Ok(_) => panic!("expected a failure"),
    }
}

#[test]
fn take_moves_the_first_entry_out() {
    let dict = document_dict(vec![
        ("a", PlistValue::Integer(1)),
        ("b", PlistValue::text("x")),
        ("a", PlistValue::Integer(2)),
    ]);
    assert_eq!(dict.take("a").unwrap().as_signed_integer(), Some(1));
    let dict = document_dict(vec![("a", PlistValue::Integer(1))]);
    assert!(dict.take("b").is_none());
    assert!(PlistValue::Integer(1).into_dictionary().is_none());
    assert_eq!(PlistValue::dictionary(Dictionary::new()).into_dictionary().unwrap().len(), 0);
}

#[test]
fn errors_have_their_texts() {
    assert_eq!(Error::Parse.to_string(), "Failed to parse the response");
    assert_eq!(Error::AuthSrp.to_string(), "Failed to authenticate.");
    assert_eq!(Error::HappyBirthdayError.to_string(), "Failed to have a happy birthday!.");
    assert_eq!(Error::Bad2faCode.to_string(), "Bad 2fa code.");
    assert_eq!(
        Error::AuthSrpWithMessage(-22406, "Wrong password".to_string()).to_string(),
        "Wrong password (-22406)"
    );
    assert_eq!(
        Error::ExtraStep("repair".to_string()).to_string(),
        "Please login to appleid.apple.com to fix this account"
    );
    assert_eq!(Error::PlistError("eof".to_string()).to_string(), "Failed to parse a plist eof");
    assert_eq!(Error::ReqwestError("timeout".to_string()).to_string(), "Request failed timeout");
    assert_eq!(
        Error::ErrorGettingAnisette(AnisetteError::Misc).to_string(),
        "Failed getting anisette data Misc"
    );
    assert_eq!(Error::FailedGetting2FAConfig.to_string(), "Disable Advanced Data Protection");
    assert_eq!(Error::SerdeError("x".to_string()).to_string(), "Serde Error");
    assert_eq!(
        Error::HardwareKeyError.to_string(),
        "Disable hardware authentication keys and try again!"
    );
    assert_eq!(Error::ProofMismatch.to_string(), "The server's proof does not match");
    assert_eq!(Error::MissingPrecondition.to_string(), "No provisioning data: log in first");
}

#[test]
fn anisette_errors_have_their_texts() {
    assert_eq!(AnisetteError::UnsupportedDevice.to_string(), "Unsupported device");
    assert_eq!(AnisetteError::InvalidArgument("x".to_string()).to_string(), "Invalid argument x");
    assert_eq!(AnisetteError::AnisetteNotProvisioned.to_string(), "Anisette not provisioned!");
    assert_eq!(
        AnisetteError::PlistError("x".to_string()).to_string(),
        "Plist serialization error x"
    );
    assert_eq!(AnisetteError::ReqwestError("x".to_string()).to_string(), "Request Error x");
    assert_eq!(AnisetteError::WsError("x".to_string()).to_string(), "Provisioning socket error x");
    assert_eq!(AnisetteError::SerdeError("x".to_string()).to_string(), "JSON error x");
    assert_eq!(AnisetteError::IOError("x".to_string()).to_string(), "IO error x");
    assert_eq!(AnisetteError::InvalidLibraryFormat.to_string(), "Invalid library format");
    assert_eq!(AnisetteError::Misc.to_string(), "Misc");
    assert_eq!(AnisetteError::MissingLibraries.to_string(), "Missing Libraries");
    assert_eq!(
        AnisetteError::ClearADIError(ClearAdiError(-45061)).to_string(),
        "ClearADI Error -45061"
    );
    assert_eq!(AnisetteError::Anyhow("plain".to_string()).to_string(), "plain");
    assert_eq!(ClearAdiError(7).to_string(), "7");
}

#[test]
fn attestation_errors_have_their_texts() {
    assert_eq!(AbsintheError::NacError(-44023).to_string(), "NAC error: -44023");
    assert_eq!(AbsintheError::Other("boom".to_string()).to_string(), "boom");
    match AbsintheError::from("converted".to_string()) {
        AbsintheError::Other(message) => assert_eq!(message, "converted"),
        _ => panic!("expected the text"),
    }
    let failed = NacError::NacFailed { code: 3, message: "denied".to_string() };
    assert_eq!(failed.to_string(), "NAC error (code 3): denied");
    match NacError::from_code(i32::MIN, None) {
        NacError::NacFailed { code, message } => {
            assert_eq!(code, i32::MIN);
            assert_eq!(message, "Unknown NAC error (code -2147483648)");
        }
    }
}
