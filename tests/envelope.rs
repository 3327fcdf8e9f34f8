use gsa_auth::device_type::{dev_url, DeveloperDeviceType};
use gsa_auth::error::Error;
use gsa_auth::grandslam::{base_headers, check_grandslam_error, response_of, UrlBag};
use gsa_auth::anisette::AnisetteClientInfo;
use gsa_auth::plist::{PlistDict, PlistValue};

fn s(v: &str) -> PlistValue {
    PlistValue::Str(v.to_string())
}

fn dict(entries: Vec<(&str, PlistValue)>) -> PlistDict {
    let mut d = PlistDict::new();
    for (k, v) in entries {
        d.insert(k.to_string(), v);
    }
    d
}

#[test]
fn url_segments_per_family() {
    assert_eq!(DeveloperDeviceType::Any.url_segment(), "");
    assert_eq!(DeveloperDeviceType::Ios.url_segment(), "ios/");
    assert_eq!(DeveloperDeviceType::Tvos.url_segment(), "tvos/");
    assert_eq!(DeveloperDeviceType::Watchos.url_segment(), "watchos/");
}

#[test]
fn dev_url_defaults_to_ios() {
    assert_eq!(
        dev_url("listTeams", None),
        "https://developerservices2.apple.com/services/QH65B2/ios/listTeams.action?clientId=XABBG36SBA"
    );
    assert_eq!(
        dev_url("listTeams", Some(DeveloperDeviceType::Any)),
        "https://developerservices2.apple.com/services/QH65B2/listTeams.action?clientId=XABBG36SBA"
    );
}

#[test]
fn accessors_report_missing_key() {
    let d = dict(vec![("a", s("x")), ("n", PlistValue::Integer(5))]);
    assert_eq!(d.get_str("a").unwrap(), "x");
    assert_eq!(d.get_signed_integer("n").unwrap(), 5);
    match d.get_str("n") {
        Err(Error::ParseProtocol(k)) => assert_eq!(k, "n"),
        other => panic!("unexpected {:?}", other),
    }
    match d.get_data("zzz") {
        Err(Error::ParseProtocol(k)) => assert_eq!(k, "zzz"),
        other => panic!("unexpected {:?}", other),
    }
}

#[test]
fn later_binding_wins() {
    let d = dict(vec![("a", s("first")), ("a", s("second"))]);
    assert_eq!(d.get_str("a").unwrap(), "second");
}

#[test]
fn grandslam_error_from_status() {
    let status = dict(vec![("ec", PlistValue::Integer(-20101)), ("em", s("Bad password"))]);
    let d = dict(vec![("Status", PlistValue::Dict(status))]);
    match check_grandslam_error(&d) {
        Err(Error::AuthWithMessage(c, m)) => {
            assert_eq!(c, -20101);
            assert_eq!(m, "Bad password");
        }
        other => panic!("unexpected {:?}", other),
    }
}

#[test]
fn grandslam_error_default_message() {
    let d = dict(vec![("ec", PlistValue::Integer(7460))]);
    match check_grandslam_error(&d) {
        Err(Error::AuthWithMessage(c, m)) => {
            assert_eq!(c, 7460);
            assert_eq!(m, "Unknown error");
        }
        other => panic!("unexpected {:?}", other),
    }
}

#[test]
fn grandslam_zero_code_is_ok() {
    let status = dict(vec![("ec", PlistValue::Integer(0))]);
    let d = dict(vec![("Status", PlistValue::Dict(status))]);
    assert!(check_grandslam_error(&d).is_ok());
    assert!(check_grandslam_error(&PlistDict::new()).is_ok());
}

#[test]
fn response_dictionary_required() {
    let d = dict(vec![("Other", s("x"))]);
    match response_of(&d) {
        Err(Error::ParseProtocol(k)) => assert_eq!(k, "Response"),
        other => panic!("unexpected {:?}", other),
    }
    let inner = dict(vec![("k", s("v"))]);
    let d = dict(vec![("Response", PlistValue::Dict(inner))]);
    assert_eq!(response_of(&d).unwrap().get_str("k").unwrap(), "v");
}

#[test]
fn url_bag_lookup() {
    let urls = dict(vec![
        ("gsService", s("https://gsa.apple.com/grandslam/GsService2")),
        ("validateCode", s("https://gsa.apple.com/grandslam/GsService2/validate")),
    ]);
    let bag = UrlBag::from_lookup(dict(vec![("urls", PlistValue::Dict(urls))])).unwrap();
    assert_eq!(bag.get_url("gsService").unwrap(), "https://gsa.apple.com/grandslam/GsService2");
    assert!(matches!(bag.get_url("secondaryAuth"), Err(Error::ParseProtocol(_))));
    assert!(matches!(UrlBag::from_lookup(PlistDict::new()), Err(Error::ParseProtocol(_))));
}

#[test]
fn base_headers_with_and_without_content_type() {
    let info = AnisetteClientInfo { client_info: "<MacBookPro>".to_string(), user_agent: "akd/1.0".to_string() };
    let h = base_headers(&info, false);
    let names: Vec<&str> = h.iter().map(|p| p.0.as_str()).collect();
    assert_eq!(
        names,
        vec!["Content-Type", "Accept", "X-Mme-Client-Info", "User-Agent", "X-Xcode-Version", "X-Apple-App-Info"]
    );
    assert_eq!(h[0].1, "text/x-xml-plist");
    assert_eq!(h[2].1, "<MacBookPro>");
    assert_eq!(h[4].1, "14.2 (14C18)");
    assert_eq!(h[5].1, "com.apple.gs.xcode.auth");
    let sms = base_headers(&info, true);
    assert_eq!(sms.len(), 4);
    assert_eq!(sms[0].0, "X-Mme-Client-Info");
}
