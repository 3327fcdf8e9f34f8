use cbc::cipher::{BlockEncryptMut, KeyIvInit};
use gsa_auth::account::{AppleAccount, LoginStep, MAX_LOGIN_ATTEMPTS};
use gsa_auth::anisette::AnisetteData;
use gsa_auth::error::Error;
use gsa_auth::login::{
    create_session_key, derive_password, login_state_for, parse_init_response, LoginState, SrpProtocol,
    SrpSession, SrpStart,
};
use gsa_auth::plist::{PlistDict, PlistValue};
use sha2::Sha256;
use srp::client::SrpClient;
use srp::groups::G_2048;
use srp::server::SrpServer;

const EMAIL: &str = "jane@example.com";
const PASSWORD: &str = "hunter2";

fn snapshot() -> AnisetteData {
    AnisetteData {
        machine_id: "MID".to_string(),
        one_time_password: "OTP".to_string(),
        routing_info: "17106176".to_string(),
        device_description: "<desc>".to_string(),
        device_unique_identifier: "DEV".to_string(),
        local_user_id: "LU".to_string(),
        generated_at: 0,
    }
}

fn dict(entries: Vec<(&str, PlistValue)>) -> PlistDict {
    let mut d = PlistDict::new();
    for (k, v) in entries {
        d.insert(k.to_string(), v);
    }
    d
}

fn s(v: &str) -> PlistValue {
    PlistValue::Str(v.to_string())
}

fn spd_dict() -> PlistDict {
    let pet = dict(vec![("token", s("PET-TOKEN"))]);
    let t = dict(vec![("com.apple.gs.idms.pet", PlistValue::Dict(pet))]);
    dict(vec![
        ("adsid", s("000123")),
        ("GsIdmsToken", s("tok")),
        ("sk", PlistValue::Data(vec![7; 32])),
        ("c", PlistValue::Data(vec![1, 2, 3])),
        ("fn", s("Jane")),
        ("ln", s("Doe")),
        ("t", PlistValue::Dict(t)),
    ])
}

/// A stand-in GrandSlam server for one SRP exchange.
struct MockServer {
    salt: Vec<u8>,
    iterations: i64,
    protocol: &'static str,
    b: Vec<u8>,
}

impl MockServer {
    fn password_key(&self) -> Vec<u8> {
        let p = if self.protocol == "s2k" { SrpProtocol::S2k } else { SrpProtocol::S2kFo };
        derive_password(PASSWORD, p, &self.salt, self.iterations)
    }

    fn password_verifier(&self) -> Vec<u8> {
        SrpClient::<Sha256>::new(&G_2048).compute_verifier(EMAIL.as_bytes(), &self.password_key(), &self.salt)
    }

    fn init_response(&self) -> PlistDict {
        let b_pub = SrpServer::<Sha256>::new(&G_2048).compute_public_ephemeral(&self.b, &self.password_verifier());
        dict(vec![
            ("s", PlistValue::Data(self.salt.clone())),
            ("B", PlistValue::Data(b_pub)),
            ("i", PlistValue::Integer(self.iterations)),
            ("c", s("cookie-1")),
            ("sp", s(self.protocol)),
            ("Status", PlistValue::Dict(dict(vec![("ec", PlistValue::Integer(0))]))),
        ])
    }

    /// The `complete` answer, with a status holding `au` when given.
    fn complete_response(&self, a_pub: &[u8], m1: &[u8], spd_plain: &[u8], au: Option<&str>, corrupt: bool) -> PlistDict {
        let server = SrpServer::<Sha256>::new(&G_2048);
        let v = server.process_reply(&self.b, &self.password_verifier(), a_pub).unwrap();
        v.verify_client(m1).unwrap();
        let key = create_session_key(v.key(), "extra data key:");
        let iv = create_session_key(v.key(), "extra data iv:");
        let enc = cbc::Encryptor::<aes::Aes256>::new_from_slices(&key, &iv[..16])
            .unwrap()
            .encrypt_padded_vec_mut::<cbc::cipher::block_padding::Pkcs7>(spd_plain);
        let mut m2 = v.proof().to_vec();
        if corrupt {
            m2[0] ^= 1;
        }
        let mut status = vec![("ec", PlistValue::Integer(0))];
        if let Some(au) = au {
            status.push(("au", s(au)));
        }
        dict(vec![
            ("M2", PlistValue::Data(m2)),
            ("spd", PlistValue::Data(enc)),
            ("Status", PlistValue::Dict(dict(status))),
        ])
    }
}

fn mock(protocol: &'static str) -> MockServer {
    MockServer { salt: b"saltsalt".to_vec(), iterations: 20000, protocol, b: vec![0x42; 32] }
}

/// Runs one SRP exchange against the mock; returns the outcome.
fn run_srp(server: &MockServer, au: Option<&str>, corrupt: bool) -> Result<gsa_auth::login::LoginOutcome, Error> {
    let start = SrpStart::new(vec![0x11; 32]);
    let req1 = start.init_request(EMAIL, &snapshot());
    let body1 = req1.get_dict("Request").unwrap();
    assert_eq!(body1.get_str("o").unwrap(), "init");
    assert_eq!(body1.get_str("u").unwrap(), EMAIL);
    let a_pub = body1.get_data("A2k").unwrap().clone();
    let challenge = parse_init_response(&server.init_response())?;
    let session = SrpSession::start(&start.a, EMAIL, PASSWORD, challenge)?;
    let req2 = session.complete_request(EMAIL, &snapshot());
    let body2 = req2.get_dict("Request").unwrap();
    assert_eq!(body2.get_str("o").unwrap(), "complete");
    assert_eq!(body2.get_str("c").unwrap(), "cookie-1");
    let m1 = body2.get_data("M1").unwrap().clone();
    let resp = server.complete_response(&a_pub, &m1, b"<plist/>", au, corrupt);
    session.finish(&resp)
}

#[test]
fn happy_path_without_two_factor() {
    let outcome = run_srp(&mock("s2k"), None, false).unwrap();
    assert_eq!(outcome.spd_plist, b"<plist/>".to_vec());
    assert!(matches!(outcome.state, LoginState::LoggedIn));
    let mut acct = AppleAccount::new(EMAIL);
    acct.accept_login(spd_dict(), outcome.state).unwrap();
    assert!(matches!(acct.next_login_step(1), LoginStep::Done));
    let (first, last) = acct.get_name().unwrap();
    assert_eq!((first.as_str(), last.as_str()), ("Jane", "Doe"));
    assert_eq!(acct.get_pet().unwrap(), "PET-TOKEN");
}

#[test]
fn s2k_fo_path() {
    let outcome = run_srp(&mock("s2k_fo"), Some("repair"), false).unwrap();
    assert!(matches!(outcome.state, LoginState::LoggedIn));
}

#[test]
fn trusted_device_two_factor() {
    let server = mock("s2k");
    let outcome = run_srp(&server, Some("trustedDeviceSecondaryAuth"), false).unwrap();
    assert!(matches!(outcome.state, LoginState::NeedsDevice2FA));
    let mut acct = AppleAccount::new(EMAIL);
    acct.accept_login(spd_dict(), outcome.state).unwrap();
    assert!(matches!(acct.next_login_step(1), LoginStep::TrustedDevice2FA));
    let headers = acct.two_factor_headers(&snapshot()).unwrap();
    assert_eq!(headers.len(), 5);
    assert_eq!(headers[3], ("X-Apple-Identity-Token".to_string(), "MDAwMTIzOnRvaw==".to_string()));
    assert_eq!(headers[4], ("X-Apple-I-MD-RINFO".to_string(), "17106176".to_string()));
    let code = gsa_auth::account::require_code(Some("123456".to_string())).unwrap();
    assert_eq!(code, "123456");
    let validate = dict(vec![("ec", PlistValue::Integer(0))]);
    gsa_auth::grandslam::check_grandslam_error(&validate).unwrap();
    acct.two_factor_done();
    assert!(matches!(acct.next_login_step(2), LoginStep::RunSrp));
    let again = run_srp(&server, None, false).unwrap();
    acct.accept_login(spd_dict(), again.state).unwrap();
    assert!(matches!(acct.next_login_step(3), LoginStep::Done));
}

#[test]
fn server_proof_mismatch() {
    assert!(matches!(run_srp(&mock("s2k"), None, true), Err(Error::NegotiationFailed)));
}

#[test]
fn unsupported_protocol_rejected() {
    match run_srp(&mock("s2k_xx"), None, false) {
        Err(Error::UnsupportedProtocol(p)) => assert_eq!(p, "s2k_xx"),
        other => panic!("unexpected {:?}", other.map(|o| o.spd_plist)),
    }
}

#[test]
fn init_response_errors() {
    let status = dict(vec![("ec", PlistValue::Integer(-20101)), ("em", s("Your Apple ID or password was incorrect."))]);
    let resp = dict(vec![("Status", PlistValue::Dict(status))]);
    assert!(matches!(parse_init_response(&resp), Err(Error::AuthWithMessage(-20101, _))));
    let resp = dict(vec![("s", PlistValue::Data(vec![1]))]);
    match parse_init_response(&resp) {
        Err(Error::ParseProtocol(k)) => assert_eq!(k, "B"),
        other => panic!("unexpected {:?}", other),
    }
}

#[test]
fn password_derivations() {
    let salt = b"saltsalt";
    assert_eq!(
        hex::encode(derive_password(PASSWORD, SrpProtocol::S2k, salt, 20000)),
        "9676e04e93b1cc26cf02b4fbfd3bb2da4357cdb643c9b73dd12e36f2816c43c7"
    );
    assert_eq!(
        hex::encode(derive_password(PASSWORD, SrpProtocol::S2kFo, salt, 20000)),
        "609529f5e1a87fd681071b3470ab9590d5a28272e5e2c1a9a3297949107bf3b2"
    );
}

#[test]
fn session_key_is_hmac() {
    let k: Vec<u8> = (0u8..32).collect();
    let r = create_session_key(&k, "extra data key:");
    assert_eq!(r.len(), 32);
    assert_eq!(hex::encode(r), "250df949063138bbc7e52a909dd4e2a78786af068faf5641a1e4e2e7b65d7694");
}

#[test]
fn status_interpretation() {
    let st = |au: Option<&str>| {
        let mut d = PlistDict::new();
        if let Some(au) = au {
            d.insert("au".to_string(), s(au));
        }
        login_state_for(&d)
    };
    assert!(matches!(st(None), LoginState::LoggedIn));
    assert!(matches!(st(Some("repair")), LoginState::LoggedIn));
    assert!(matches!(st(Some("secondaryAuth")), LoginState::NeedsSMS2FA));
    assert!(matches!(st(Some("trustedDeviceSecondaryAuth")), LoginState::NeedsDevice2FA));
    match st(Some("fsaChallenge")) {
        LoginState::NeedsExtraStep(x) => assert_eq!(x, "fsaChallenge"),
        other => panic!("unexpected {:?}", other),
    }
}

#[test]
fn login_loop_gives_up_after_ten_iterations() {
    let mut acct = AppleAccount::new(EMAIL);
    acct.accept_login(spd_dict(), LoginState::NeedsDevice2FA).unwrap();
    for attempt in 1..=MAX_LOGIN_ATTEMPTS {
        assert!(matches!(acct.next_login_step(attempt), LoginStep::TrustedDevice2FA));
    }
    assert_eq!(MAX_LOGIN_ATTEMPTS, 10);
    assert!(matches!(acct.next_login_step(11), LoginStep::Failed(Error::MaxLoginAttempts)));
}

#[test]
fn extra_step_uses_pet_or_fails() {
    let mut acct = AppleAccount::new(EMAIL);
    acct.accept_login(spd_dict(), LoginState::NeedsExtraStep("fsa".to_string())).unwrap();
    assert!(matches!(acct.next_login_step(1), LoginStep::Continue));
    assert!(matches!(acct.next_login_step(2), LoginStep::Done));
    let mut bare = spd_dict();
    bare.entries.retain(|e| e.0 != "t");
    let mut acct = AppleAccount::new(EMAIL);
    acct.accept_login(bare, LoginState::NeedsExtraStep("fsa".to_string())).unwrap();
    match acct.next_login_step(1) {
        LoginStep::Failed(Error::ExtraStepRequired(x)) => assert_eq!(x, "fsa"),
        other => panic!("unexpected {:?}", other),
    }
}

#[test]
fn incomplete_session_data_refused() {
    let mut acct = AppleAccount::new(EMAIL);
    let d = dict(vec![("adsid", s("1")), ("GsIdmsToken", s("t")), ("sk", PlistValue::Data(vec![1; 32]))]);
    match acct.accept_login(d, LoginState::LoggedIn) {
        Err(Error::ParseProtocol(k)) => assert_eq!(k, "c"),
        other => panic!("unexpected {:?}", other),
    }
    assert!(acct.spd.is_none());
    assert!(matches!(acct.get_name(), Err(Error::NotLoggedIn)));
    assert!(matches!(acct.get_pet(), Err(Error::NotLoggedIn)));
    assert!(matches!(acct.two_factor_headers(&snapshot()), Err(Error::NotLoggedIn)));
    assert!(matches!(acct.next_login_step(1), LoginStep::RunSrp));
}

#[test]
fn missing_code_is_fatal() {
    assert!(matches!(gsa_auth::account::require_code(None), Err(Error::No2FACodeProvided)));
    assert!(matches!(gsa_auth::account::require_code(Some(String::new())), Err(Error::No2FACodeProvided)));
}

#[test]
fn short_session_key_refused() {
    let mut acct = AppleAccount::new(EMAIL);
    let d = dict(vec![
        ("adsid", s("1")),
        ("GsIdmsToken", s("t")),
        ("sk", PlistValue::Data(vec![1; 16])),
        ("c", PlistValue::Data(vec![1])),
    ]);
    match acct.accept_login(d, LoginState::LoggedIn) {
        Err(Error::ParseProtocol(k)) => assert_eq!(k, "sk"),
        other => panic!("unexpected {:?}", other),
    }
    assert!(acct.spd.is_none());
}

#[test]
fn iteration_count_bounds() {
    for bad in [0i64, -1, 1i64 << 40] {
        let resp = dict(vec![
            ("s", PlistValue::Data(vec![1])),
            ("B", PlistValue::Data(vec![2])),
            ("i", PlistValue::Integer(bad)),
            ("c", s("c")),
            ("sp", s("s2k")),
        ]);
        match parse_init_response(&resp) {
            Err(Error::ParseProtocol(k)) => assert_eq!(k, "i"),
            other => panic!("unexpected {:?}", other),
        }
    }
}

#[test]
fn account_description() {
    let mut acct = AppleAccount::new(EMAIL);
    assert_eq!(acct.describe(), "Apple Account: jane@example.com (NeedsLogin)");
    acct.accept_login(spd_dict(), LoginState::NeedsExtraStep("fsa".to_string())).unwrap();
    assert_eq!(acct.describe(), "Apple Account: Jane Doe jane@example.com (NeedsExtraStep(fsa))");
    assert_eq!(LoginState::LoggedIn.describe(), "LoggedIn");
}
