use icloud_auth::account::{
    AppleAccount, AuthenticationExtras, LoginState, PhoneNumber, TrustedPhoneNumber, VerifyBody,
};
use icloud_auth::anisette::{AnisetteClient, AnisetteHeaders, AnisetteProvider, LoginClientInfo};
use icloud_auth::document::{Dictionary, PlistValue};
use icloud_auth::error::{AnisetteError, Error};
use icloud_auth::http::{HeaderList, Method};
use icloud_auth::token::FetchedToken;
use icloud_auth::two_factor::{
    auth_extras_available, get_auth_extras, parse_pet_header, parse_token_header,
    read_verification, LoginAction, TokenLookup,
};
use icloud_auth::token::TtlPosition;

const TF_NOW: u64 = 1_690_000_000_000;

struct TfProvider;

impl AnisetteProvider for TfProvider {
    fn get_anisette_headers(&mut self) -> Result<AnisetteHeaders, AnisetteError> {
        Ok(AnisetteHeaders::new())
    }
}

fn tf_dict(entries: Vec<(&str, PlistValue)>) -> Dictionary {
    Dictionary { entries: entries.into_iter().map(|(k, v)| (k.to_string(), v)).collect() }
}

fn tf_fresh() -> AppleAccount<TfProvider> {
    AppleAccount::new_with_anisette(LoginClientInfo::default(), AnisetteClient::new(TfProvider))
        .unwrap()
}

fn tf_account() -> AppleAccount<TfProvider> {
    let mut account = tf_fresh();
    account.spd = Some(tf_dict(vec![
        ("adsid", PlistValue::String("ADSID-1".to_string())),
        ("GsIdmsToken", PlistValue::String("IDMS-TOKEN".to_string())),
    ]));
    account
}

fn tf_headers(entries: Vec<(&str, &str)>) -> HeaderList {
    let mut list = HeaderList::new();
    for (name, value) in entries {
        list.append(name, value);
    }
    list
}

fn tf_pairs(list: &HeaderList) -> Vec<(String, String)> {
    list.entries.iter().map(|h| (h.name.clone(), h.value.clone())).collect()
}

fn tf_ok_body() -> Dictionary {
    tf_dict(vec![("ec", PlistValue::Integer(0))])
}

#[test]
fn verify_2fa_with_pet_header_logs_in() {
    let mut account = tf_account();
    let headers = tf_headers(vec![("X-Apple-PE-Token", "MTIzNDU6YWJjREVGOjMwMA==")]);
    let state = account.verify_2fa(&headers, &tf_ok_body(), TF_NOW).unwrap();
    assert!(matches!(state, LoginState::LoggedIn));
    assert_eq!(account.get_pet(), Some("abcDEF".to_string()));
    let pet = account.tokens.find("com.apple.gs.idms.pet").unwrap();
    assert_eq!(pet.expiration, TF_NOW as u128 + 300_000);
    assert_eq!(account.tokens.get("com.apple.gs.idms.pet", TF_NOW + 299_999), Some("abcDEF".to_string()));
    assert_eq!(account.tokens.get("com.apple.gs.idms.pet", TF_NOW + 300_000), None);
}

#[test]
fn verify_2fa_without_pet_header_needs_login() {
    let mut account = tf_account();
    let state = account.verify_2fa(&tf_headers(vec![]), &tf_ok_body(), TF_NOW).unwrap();
    assert!(matches!(state, LoginState::NeedsLogin));
    assert_eq!(account.get_pet(), None);
    assert!(account.tokens.is_empty());
}

#[test]
fn verify_2fa_replaces_the_whole_token_set() {
    let mut account = tf_account();
    account.tokens.insert(
        "stale".to_string(),
        FetchedToken { token: "old".to_string(), expiration: u128::MAX },
    );
    let headers = tf_headers(vec![
        ("x-apple-hb-token", "Y29tLmFwcGxlLmdzLmlkbXMuaGI6aGJ0b2tlbjoxNzAwMDAwMDAwMDAw"),
        ("X-Apple-GS-Token", "Y29tLmFwcGxlLmdzLmljbG91ZC5hdXRoOmdzdG9rZW46MzYwMA=="),
        ("X-Apple-GS-Token", "c3ZjOnRvaw=="),
        ("X-Apple-PE-Token", "MTIzNDU6YWJjREVG"),
    ]);
    let state = account.verify_2fa(&headers, &tf_ok_body(), TF_NOW).unwrap();
    assert!(matches!(state, LoginState::LoggedIn));
    assert!(account.tokens.find("stale").is_none());
    assert_eq!(
        account.tokens.find("com.apple.gs.idms.hb").unwrap().expiration,
        1_700_000_000_000
    );
    assert_eq!(
        account.tokens.find("com.apple.gs.icloud.auth").unwrap().expiration,
        TF_NOW as u128 + 3_600_000
    );
    assert_eq!(account.tokens.find("svc").unwrap().expiration, TF_NOW as u128 + 31_536_000_000);
    assert_eq!(account.tokens.find("svc").unwrap().token, "tok");
    assert_eq!(account.get_pet(), Some("abcDEF".to_string()));
}

#[test]
fn verify_2fa_fails_without_committing() {
    let mut account = tf_account();
    account.tokens.insert(
        "kept".to_string(),
        FetchedToken { token: "old".to_string(), expiration: u128::MAX },
    );
    for bad in ["not base64!", "//46dG9r", "b25seQ==", "c3ZjOnRvazphYmM="] {
        let headers = tf_headers(vec![("X-Apple-GS-Token", "c3ZjOnRvaw=="), ("X-Apple-HB-Token", bad)]);
        assert!(matches!(
            account.verify_2fa(&headers, &tf_ok_body(), TF_NOW),
            Err(Error::Parse)
        ));
        assert_eq!(account.tokens.get("kept", TF_NOW), Some("old".to_string()));
        assert!(account.tokens.find("svc").is_none());
    }
    let bad_pet = tf_headers(vec![("X-Apple-PE-Token", "b25seQ==")]);
    assert!(matches!(account.verify_2fa(&bad_pet, &tf_ok_body(), TF_NOW), Err(Error::Parse)));
    assert_eq!(account.tokens.get("kept", TF_NOW), Some("old".to_string()));
    let refused = tf_dict(vec![
        ("ec", PlistValue::Integer(-21669)),
        ("em", PlistValue::String("Incorrect verification code".to_string())),
    ]);
    match account.verify_2fa(&tf_headers(vec![]), &refused, TF_NOW) {
        Err(Error::AuthSrpWithMessage(code, message)) => {
            assert_eq!(code, -21669);
            assert_eq!(message, "Incorrect verification code");
        }
        _ => panic!("expected the server's status"),
    }
    assert_eq!(account.tokens.get("kept", TF_NOW), Some("old".to_string()));
}

#[test]
fn second_factor_needs_provisioning_data() {
    let mut account = tf_fresh();
    let none = tf_headers(vec![]);
    assert!(matches!(account.build_2fa_headers(false, &none), Err(Error::MissingPrecondition)));
    assert!(matches!(
        account.send_2fa_to_devices_request(&none),
        Err(Error::MissingPrecondition)
    ));
    assert!(matches!(account.send_2fa_to_devices(200), Err(Error::MissingPrecondition)));
    assert!(matches!(
        account.send_sms_2fa_to_devices_request(1, &none),
        Err(Error::MissingPrecondition)
    ));
    assert!(matches!(account.verify_2fa_request("123456", &none), Err(Error::MissingPrecondition)));
    assert!(matches!(
        account.verify_2fa(&none, &tf_ok_body(), TF_NOW),
        Err(Error::MissingPrecondition)
    ));
    assert!(matches!(
        account.verify_sms_2fa(200, &none, TF_NOW),
        Err(Error::MissingPrecondition)
    ));
    assert!(matches!(account.get_auth_extras_request(&none), Err(Error::MissingPrecondition)));
    account.spd = Some(tf_dict(vec![("adsid", PlistValue::String("A".to_string()))]));
    assert!(matches!(account.build_2fa_headers(true, &none), Err(Error::MissingPrecondition)));
}

#[test]
fn verify_sms_2fa_reads_the_ttl_one_field_further_right() {
    let mut account = tf_account();
    let headers = tf_headers(vec![
        ("X-Apple-GS-Token", "c3ZjOnRvazoxMDA6MTcwMDAwMDAwMDAwMA=="),
        ("X-Apple-HB-Token", "c3ZjMjp0b2s6MTAw"),
        ("X-Apple-PE-Token", "MTIzNDU6YWJjREVGOjMwMA=="),
    ]);
    let state = account.verify_sms_2fa(200, &headers, TF_NOW).unwrap();
    assert!(matches!(state, LoginState::LoggedIn));
    assert_eq!(account.tokens.find("svc").unwrap().expiration, 1_700_000_000_000);
    assert_eq!(account.tokens.find("svc2").unwrap().expiration, TF_NOW as u128 + 100_000);
    assert_eq!(account.get_pet(), Some("abcDEF".to_string()));

    let mut other = tf_account();
    let state = other.verify_2fa(&headers, &tf_ok_body(), TF_NOW).unwrap();
    assert!(matches!(state, LoginState::LoggedIn));
    assert_eq!(other.tokens.find("svc").unwrap().expiration, TF_NOW as u128 + 100_000);
}

#[test]
fn verify_sms_2fa_rejects_any_status_but_200() {
    for status in [201u16, 204, 400, 401, 500, 0] {
        let mut account = tf_account();
        account.tokens.insert(
            "kept".to_string(),
            FetchedToken { token: "old".to_string(), expiration: u128::MAX },
        );
        let headers = tf_headers(vec![("X-Apple-PE-Token", "MTIzNDU6YWJjREVGOjMwMA==")]);
        assert!(matches!(
            account.verify_sms_2fa(status, &headers, TF_NOW),
            Err(Error::Bad2faCode)
        ));
        assert_eq!(account.tokens.get("kept", TF_NOW), Some("old".to_string()));
        assert_eq!(account.get_pet(), None);
    }
    let mut account = tf_account();
    assert!(matches!(
        account.verify_sms_2fa(200, &tf_headers(vec![]), TF_NOW),
        Ok(LoginState::NeedsLogin)
    ));
}

#[test]
fn headers_of_a_device_request() {
    let account = tf_account();
    let extra = tf_headers(vec![("X-Apple-I-MD", "md"), ("User-Agent", "akd"), ("X-Mme-Client-Info", "info")]);
    let headers = account.build_2fa_headers(false, &extra).unwrap();
    assert_eq!(
        tf_pairs(&headers),
        vec![
            ("X-Apple-I-MD".to_string(), "md".to_string()),
            ("User-Agent".to_string(), "Xcode".to_string()),
            ("X-Mme-Client-Info".to_string(), "info".to_string()),
            ("Content-Type".to_string(), "text/x-xml-plist".to_string()),
            ("Accept".to_string(), "text/x-xml-plist".to_string()),
            ("Accept-Language".to_string(), "en-us".to_string()),
            ("X-Apple-App-Info".to_string(), "com.apple.gs.xcode.auth".to_string()),
            ("X-Xcode-Version".to_string(), "11.2 (11B41)".to_string()),
            ("X-Apple-Identity-Token".to_string(), "QURTSUQtMTpJRE1TLVRPS0VO".to_string()),
        ]
    );
}

#[test]
fn headers_of_a_phone_request_carry_no_content_type() {
    let account = tf_account();
    let headers = account.build_2fa_headers(true, &tf_headers(vec![])).unwrap();
    assert_eq!(headers.get("Content-Type"), None);
    assert_eq!(headers.get("Accept"), None);
    assert_eq!(headers.get("user-agent"), Some("Xcode".to_string()));
    assert_eq!(headers.get("X-Apple-Identity-Token"), Some("QURTSUQtMTpJRE1TLVRPS0VO".to_string()));
    assert_eq!(headers.len(), 5);
}

#[test]
fn push_request_and_answer() {
    let account = tf_account();
    let request = account.send_2fa_to_devices_request(&tf_headers(vec![])).unwrap();
    assert_eq!(request.method, Method::Get);
    assert_eq!(request.url, "https://gsa.apple.com/auth/verify/trusteddevice");
    assert!(request.json.is_none());
    assert_eq!(request.headers.get("Content-Type"), Some("text/x-xml-plist".to_string()));
    assert!(matches!(account.send_2fa_to_devices(200), Ok(LoginState::Needs2FAVerification)));
    assert!(matches!(account.send_2fa_to_devices(204), Ok(LoginState::Needs2FAVerification)));
    for status in [199u16, 300, 403, 500] {
        match account.send_2fa_to_devices(status) {
            Err(Error::ReqwestError(message)) => {
                assert_eq!(message, format!("HTTP status {}", status))
            }
            _ => panic!("expected a failure of the transport"),
        }
    }
    assert!(account.spd.is_some());
    assert!(account.tokens.is_empty());
}

#[test]
fn phone_request_is_echoed_on_verification() {
    let account = tf_account();
    let request = account.send_sms_2fa_to_devices_request(7, &tf_headers(vec![])).unwrap();
    assert_eq!(request.method, Method::Put);
    assert_eq!(request.url, "https://gsa.apple.com/auth/verify/phone");
    assert_eq!(request.headers.get_all("Accept"), vec!["application/json"]);
    let body = request.json.unwrap();
    assert_eq!(body.phone_number.id, 7);
    assert_eq!(body.mode, "sms");
    assert!(body.security_code.is_none());

    let pending = match account.send_sms_2fa_to_devices(200, body).unwrap() {
        LoginState::NeedsSMS2FAVerification(pending) => pending,
        _ => panic!("expected a pending request"),
    };
    assert_eq!(pending.phone_number.id, 7);
    assert_eq!(pending.mode, "sms");
    assert!(pending.security_code.is_none());

    let verify = account
        .verify_sms_2fa_request("123456".to_string(), pending, &tf_headers(vec![]))
        .unwrap();
    assert_eq!(verify.method, Method::Post);
    assert_eq!(verify.url, "https://gsa.apple.com/auth/verify/phone/securitycode");
    assert_eq!(verify.headers.get_all("accept"), vec!["application/json"]);
    let sent = verify.json.unwrap();
    assert_eq!(sent.phone_number.id, 7);
    assert_eq!(sent.mode, "sms");
    assert_eq!(sent.security_code.unwrap().code, "123456");

    let refused = VerifyBody {
        phone_number: PhoneNumber { id: 1 },
        mode: "sms".to_string(),
        security_code: None,
    };
    match account.send_sms_2fa_to_devices(500, refused) {
        Err(Error::ReqwestError(message)) => assert_eq!(message, "HTTP status 500"),
        _ => panic!("expected a failure of the transport"),
    }
}

#[test]
fn validation_request_carries_the_code() {
    let account = tf_account();
    let request = account.verify_2fa_request("654321", &tf_headers(vec![("X-A", "1")])).unwrap();
    assert_eq!(request.method, Method::Get);
    assert_eq!(request.url, "https://gsa.apple.com/grandslam/GsService2/validate");
    assert_eq!(request.headers.get("security-code"), Some("654321".to_string()));
    assert_eq!(request.headers.get("X-A"), Some("1".to_string()));
    assert_eq!(request.headers.entries.last().unwrap().name, "security-code");
}

#[test]
fn token_headers_are_base64_of_utf8_fields() {
    let parsed = parse_token_header("c3ZjOnRvazoxMDA=", TtlPosition::Third, TF_NOW).unwrap();
    assert_eq!(parsed.id, "svc");
    assert_eq!(parsed.token.token, "tok");
    assert_eq!(parsed.token.expiration, TF_NOW as u128 + 100_000);
    assert!(parse_token_header("svc:tok:100", TtlPosition::Third, TF_NOW).is_none());
    assert!(parse_token_header("//46dG9r", TtlPosition::Third, TF_NOW).is_none());
    assert!(parse_token_header("", TtlPosition::Third, TF_NOW).is_none());
    let pet = parse_pet_header("MTIzNDU6YWJjREVGOjMwMA==", TF_NOW).unwrap();
    assert_eq!(pet.token, "abcDEF");
    assert_eq!(pet.expiration, TF_NOW as u128 + 300_000);
    assert!(parse_pet_header("12345:abcDEF:300", TF_NOW).is_none());
}

#[test]
fn later_token_headers_win() {
    let headers = tf_headers(vec![
        ("X-Apple-HB-Token", "c3ZjOnRvazoxMDA="),
        ("X-Apple-GS-Token", "c3ZjOnRvaw=="),
    ]);
    let (store, state) = read_verification(&headers, TtlPosition::Third, TF_NOW).unwrap();
    assert!(matches!(state, LoginState::NeedsLogin));
    assert_eq!(store.find("svc").unwrap().expiration, TF_NOW as u128 + 100_000);
}

#[test]
fn get_token_returns_a_cached_token_that_has_not_expired() {
    let mut account = tf_account();
    account.username = Some("user".to_string());
    account.hashed_password = Some(vec![1, 2, 3]);
    account.tokens.insert("svc".to_string(), FetchedToken { token: "t".to_string(), expiration: 1000 });
    match account.get_token("svc", 999) {
        TokenLookup::Found(token) => assert_eq!(token, "t"),
        _ => panic!("expected the cached token"),
    }
    assert!(matches!(account.get_token("other", 999), TokenLookup::Relogin { .. }));
    account.hashed_password = None;
    assert!(matches!(account.get_token("other", 999), TokenLookup::Missing));
    match account.get_token("svc", 999) {
        TokenLookup::Found(token) => assert_eq!(token, "t"),
        _ => panic!("expected the cached token"),
    }
}

#[test]
fn get_token_on_an_expired_entry_asks_for_one_login() {
    let mut account = tf_account();
    account.username = Some("user".to_string());
    account.hashed_password = Some(vec![1, 2, 3]);
    account.tokens.insert("svc".to_string(), FetchedToken { token: "t".to_string(), expiration: 1000 });
    match account.get_token("svc", 1000) {
        TokenLookup::Relogin { username, hashed_password } => {
            assert_eq!(username, "user");
            assert_eq!(hashed_password, vec![1, 2, 3]);
        }
        _ => panic!("expected one login"),
    }
    let failed: Result<LoginState, Error> = Err(Error::AuthSrp);
    assert_eq!(account.get_token_after_login("svc", &failed), None);
    let second_factor: Result<LoginState, Error> = Ok(LoginState::NeedsDevice2FA);
    assert_eq!(account.get_token_after_login("svc", &second_factor), None);
    let done: Result<LoginState, Error> = Ok(LoginState::LoggedIn);
    assert_eq!(account.get_token_after_login("svc", &done), Some("t".to_string()));
    assert_eq!(account.get_token_after_login("other", &done), None);
}

#[test]
fn get_token_without_credentials_gives_up() {
    let mut account = tf_account();
    account.tokens.insert("svc".to_string(), FetchedToken { token: "t".to_string(), expiration: 1000 });
    assert!(matches!(account.get_token("svc", 2000), TokenLookup::Missing));
    account.username = Some("user".to_string());
    assert!(matches!(account.get_token("svc", 2000), TokenLookup::Missing));
    account.hashed_password = Some(vec![1]);
    assert!(matches!(account.get_token("svc", 2000), TokenLookup::Relogin { .. }));
}

#[test]
fn get_token_on_an_empty_store_asks_for_one_login() {
    let mut account = tf_account();
    assert!(matches!(account.get_token("svc", 0), TokenLookup::Missing));
    account.username = Some("user".to_string());
    account.hashed_password = Some(vec![1]);
    assert!(matches!(account.get_token("svc", 0), TokenLookup::Relogin { .. }));
}

#[test]
fn pet_is_read_without_regard_to_expiry() {
    let mut account = tf_account();
    account.tokens.insert(
        "com.apple.gs.idms.pet".to_string(),
        FetchedToken { token: "pet".to_string(), expiration: 0 },
    );
    assert_eq!(account.get_pet(), Some("pet".to_string()));
    assert_eq!(account.tokens.get("com.apple.gs.idms.pet", 1), None);
}

#[test]
fn driver_follows_the_state() {
    let mut account = tf_account();
    assert!(matches!(
        account.login_with_anisette(LoginState::Needs2FAVerification),
        LoginAction::Verify2fa
    ));
    assert!(matches!(
        account.login_with_anisette(LoginState::NeedsSMS2FA),
        LoginAction::SendCodes(1)
    ));
    assert!(matches!(
        account.login_with_anisette(LoginState::NeedsDevice2FA),
        LoginAction::SendCodes(1)
    ));
    assert!(matches!(account.login_with_anisette(LoginState::NeedsLogin), LoginAction::Login));
    assert!(matches!(account.login_with_anisette(LoginState::LoggedIn), LoginAction::Done));
    let body = VerifyBody {
        phone_number: PhoneNumber { id: 3 },
        mode: "sms".to_string(),
        security_code: None,
    };
    match account.login_with_anisette(LoginState::NeedsSMS2FAVerification(body)) {
        LoginAction::VerifySms2fa(body) => assert_eq!(body.phone_number.id, 3),
        _ => panic!("expected a verification"),
    }
    match account.login_with_anisette(LoginState::NeedsExtraStep("repair".to_string())) {
        LoginAction::Fail(Error::ExtraStep(step)) => assert_eq!(step, "repair"),
        _ => panic!("expected a failure"),
    }
    account.tokens.insert(
        "com.apple.gs.idms.pet".to_string(),
        FetchedToken { token: "pet".to_string(), expiration: 0 },
    );
    assert!(matches!(
        account.login_with_anisette(LoginState::NeedsExtraStep("repair".to_string())),
        LoginAction::Done
    ));
}

fn tf_extras(ids: Vec<u32>) -> AuthenticationExtras {
    AuthenticationExtras {
        trusted_phone_numbers: ids
            .into_iter()
            .map(|id| TrustedPhoneNumber {
                number_with_dial_code: "+1 (•••) •••-••12".to_string(),
                last_two_digits: "12".to_string(),
                push_mode: "sms".to_string(),
                id,
            })
            .collect(),
        recovery_url: Some("https://example.com/recover".to_string()),
        cant_use_phone_number_url: None,
        dont_have_access_url: None,
        recovery_web_url: None,
        repair_phone_number_url: None,
        repair_phone_number_web_url: None,
        new_state: None,
    }
}

#[test]
fn auth_extras_follow_the_status() {
    assert!(matches!(auth_extras_available(403), Err(Error::FailedGetting2FAConfig)));
    assert!(auth_extras_available(200).is_ok());
    assert!(matches!(
        get_auth_extras(403, tf_extras(vec![4])),
        Err(Error::FailedGetting2FAConfig)
    ));
    assert!(matches!(get_auth_extras(200, tf_extras(vec![])), Err(Error::HardwareKeyError)));
    let plain = get_auth_extras(200, tf_extras(vec![4, 5])).unwrap();
    assert!(plain.new_state.is_none());
    assert_eq!(plain.trusted_phone_numbers.len(), 2);
    assert_eq!(plain.recovery_url.as_deref(), Some("https://example.com/recover"));
    let sent = get_auth_extras(201, tf_extras(vec![4, 5])).unwrap();
    match sent.new_state {
        Some(LoginState::NeedsSMS2FAVerification(body)) => {
            assert_eq!(body.phone_number.id, 4);
            assert_eq!(body.mode, "sms");
            assert!(body.security_code.is_none());
        }
        _ => panic!("expected a pending request"),
    }
}

#[test]
fn auth_extras_request() {
    let account = tf_account();
    let request = account.get_auth_extras_request(&tf_headers(vec![])).unwrap();
    assert_eq!(request.method, Method::Get);
    assert_eq!(request.url, "https://gsa.apple.com/auth");
    assert_eq!(request.headers.get("Accept"), Some("application/json".to_string()));
}
