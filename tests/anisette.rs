use gsa_auth::anisette::{
    end_provisioning_body, provisioning_step, ptm_tk_of, spim_of, start_provisioning_body, websocket_url,
    AnisetteCache, AnisetteData, AnisetteState, ProvisioningAction, ProvisioningMessage,
};
use gsa_auth::error::Error;
use gsa_auth::plist::{PlistDict, PlistValue};

fn fixed_state() -> AnisetteState {
    let mut id = [0u8; 16];
    for (i, b) in id.iter_mut().enumerate() {
        *b = i as u8;
    }
    AnisetteState { keychain_identifier: id, adi_pb: None }
}

fn snapshot(at: u64) -> AnisetteData {
    AnisetteData {
        machine_id: "MID".to_string(),
        one_time_password: "OTP".to_string(),
        routing_info: "17106176".to_string(),
        device_description: "<desc>".to_string(),
        device_unique_identifier: "DEV".to_string(),
        local_user_id: "LU".to_string(),
        generated_at: at,
    }
}

fn response(entries: Vec<(&str, &str)>) -> PlistDict {
    let mut inner = PlistDict::new();
    for (k, v) in entries {
        inner.insert(k.to_string(), PlistValue::Str(v.to_string()));
    }
    let mut d = PlistDict::new();
    d.insert("Response".to_string(), PlistValue::Dict(inner));
    d
}

#[test]
fn device_id_is_canonical_uuid() {
    let st = fixed_state();
    assert_eq!(st.get_device_id(), "00010203-0405-0607-0809-0a0b0c0d0e0f");
}

#[test]
fn md_lu_is_sha256_of_identifier() {
    let st = fixed_state();
    assert_eq!(hex::encode(st.get_md_lu()), "be45cb2605bf36bebde684841a28f0fd43c69850a3dce5fedba69928ee3a8991");
}

#[test]
fn provisioning_headers_reduced_set() {
    let h = fixed_state().provisioning_headers();
    assert_eq!(h.len(), 2);
    assert_eq!(h[0].0, "X-Apple-I-MD-LU");
    assert_eq!(h[0].1, "be45cb2605bf36bebde684841a28f0fd43c69850a3dce5fedba69928ee3a8991");
    assert_eq!(h[1].0, "X-Mme-Device-Id");
    assert_eq!(h[1].1, "00010203-0405-0607-0809-0a0b0c0d0e0f");
}

#[test]
fn fresh_state_is_unprovisioned() {
    let a = AnisetteState::new();
    let b = AnisetteState::new();
    assert!(!a.is_provisioned());
    assert_ne!(a.keychain_identifier, b.keychain_identifier);
    let restored = AnisetteState::restore(Some(fixed_state()));
    assert_eq!(restored.keychain_identifier, fixed_state().keychain_identifier);
    assert!(!AnisetteState::restore(None).is_provisioned());
}

#[test]
fn header_request_needs_provisioning() {
    let mut st = fixed_state();
    assert!(matches!(st.header_request_fields(), Err(Error::AnisetteNotProvisioned)));
    st.adi_pb = Some(vec![1, 2, 3]);
    let (id, pb) = st.header_request_fields().unwrap();
    assert_eq!(id, "AAECAwQFBgcICQoLDA0ODw==");
    assert_eq!(pb, "AQID");
}

#[test]
fn provisioning_walk() {
    let mut st = fixed_state();
    match provisioning_step(&mut st, ProvisioningMessage::GiveIdentifier).unwrap() {
        ProvisioningAction::SendIdentifier(id) => assert_eq!(id, "AAECAwQFBgcICQoLDA0ODw=="),
        other => panic!("unexpected {:?}", other),
    }
    match provisioning_step(&mut st, ProvisioningMessage::GiveStartProvisioningData).unwrap() {
        ProvisioningAction::StartProvisioning(body) => {
            assert_eq!(body.entries.len(), 2);
            assert_eq!(body.get_dict("Header").unwrap().entries.len(), 0);
            assert_eq!(body.get_dict("Request").unwrap().entries.len(), 0);
        }
        other => panic!("unexpected {:?}", other),
    }
    let spim = spim_of(&response(vec![("spim", "SPIM==")])).unwrap();
    assert_eq!(spim, "SPIM==");
    let msg = ProvisioningMessage::GiveEndProvisioningData { cpim: "CPIM==".to_string() };
    match provisioning_step(&mut st, msg).unwrap() {
        ProvisioningAction::EndProvisioning(body) => {
            assert_eq!(body.get_dict("Request").unwrap().get_str("cpim").unwrap(), "CPIM==");
        }
        other => panic!("unexpected {:?}", other),
    }
    let (ptm, tk) = ptm_tk_of(&response(vec![("ptm", "P"), ("tk", "T")])).unwrap();
    assert_eq!((ptm.as_str(), tk.as_str()), ("P", "T"));
    assert!(!st.is_provisioned());
    let msg = ProvisioningMessage::ProvisioningSuccess { adi_pb: "3q2+7w==".to_string() };
    assert!(matches!(provisioning_step(&mut st, msg).unwrap(), ProvisioningAction::Finished));
    assert_eq!(st.adi_pb, Some(vec![0xde, 0xad, 0xbe, 0xef]));
    assert_eq!(st.keychain_identifier, fixed_state().keychain_identifier);
    let data = AnisetteData::from_headers(&st, "M".to_string(), "O".to_string(), "R".to_string(), "D".to_string(), 5);
    assert_eq!(data.device_unique_identifier, "00010203-0405-0607-0809-0a0b0c0d0e0f");
    assert_eq!(data.local_user_id, "be45cb2605bf36bebde684841a28f0fd43c69850a3dce5fedba69928ee3a8991");
    assert!(st.header_request_fields().is_ok());
}

#[test]
fn provisioning_failures() {
    let mut st = fixed_state();
    match provisioning_step(&mut st, ProvisioningMessage::Timeout) {
        Err(Error::Provisioning(p, None)) => assert_eq!(p, "timeout"),
        other => panic!("unexpected {:?}", other),
    }
    match provisioning_step(&mut st, ProvisioningMessage::InvalidIdentifier) {
        Err(Error::Provisioning(p, None)) => assert_eq!(p, "invalid identifier"),
        other => panic!("unexpected {:?}", other),
    }
    let msg = ProvisioningMessage::StartProvisioningError { message: "busy".to_string() };
    match provisioning_step(&mut st, msg) {
        Err(Error::Provisioning(p, Some(m))) => {
            assert_eq!(p, "start provisioning");
            assert_eq!(m, "busy");
        }
        other => panic!("unexpected {:?}", other),
    }
    let msg = ProvisioningMessage::EndProvisioningError { message: "bad".to_string() };
    match provisioning_step(&mut st, msg) {
        Err(Error::Provisioning(p, Some(m))) => {
            assert_eq!(p, "end provisioning");
            assert_eq!(m, "bad");
        }
        other => panic!("unexpected {:?}", other),
    }
    let msg = ProvisioningMessage::ProvisioningSuccess { adi_pb: "not base64!".to_string() };
    assert!(matches!(provisioning_step(&mut st, msg), Err(Error::ParseProtocol(_))));
    assert!(!st.is_provisioned());
}

#[test]
fn provisioning_response_missing_fields() {
    assert!(matches!(spim_of(&PlistDict::new()), Err(Error::ParseProtocol(_))));
    assert!(matches!(ptm_tk_of(&response(vec![("ptm", "P")])), Err(Error::ParseProtocol(_))));
}

#[test]
fn provisioning_bodies() {
    assert_eq!(start_provisioning_body().entries.len(), 2);
    let b = end_provisioning_body("X");
    assert_eq!(b.entries[0].0, "Header");
    assert_eq!(b.entries[1].0, "Request");
}

#[test]
fn socket_url_scheme_mapping() {
    assert_eq!(websocket_url("https://ani.sidestore.io"), "wss://ani.sidestore.io/v3/provisioning_session");
    assert_eq!(websocket_url("http://localhost:6969"), "ws://localhost:6969/v3/provisioning_session");
    assert_eq!(websocket_url("ani.example"), "ani.example/v3/provisioning_session");
}

#[test]
fn anisette_headers_and_cpd() {
    let d = snapshot(0);
    let h = d.get_headers();
    assert_eq!(h.len(), 3);
    assert_eq!(h[0], ("X-Mme-Device-Id".to_string(), "DEV".to_string()));
    assert_eq!(h[1], ("X-Apple-I-MD".to_string(), "OTP".to_string()));
    assert_eq!(h[2], ("X-Apple-I-MD-M".to_string(), "MID".to_string()));
    let cpd = d.get_client_provided_data();
    assert_eq!(cpd.entries.len(), 9);
    assert_eq!(cpd.get_str("bootstrap").unwrap(), "true");
    assert_eq!(cpd.get_str("pbe").unwrap(), "false");
    assert_eq!(cpd.get_str("loc").unwrap(), "en_US");
    assert_eq!(cpd.get_str("svct").unwrap(), "iCloud");
    assert_eq!(cpd.get_str("X-Apple-I-MD-M").unwrap(), "MID");
}

#[test]
fn snapshot_staleness() {
    let d = snapshot(1000);
    assert!(!d.needs_refresh(1000));
    assert!(!d.needs_refresh(1059));
    assert!(d.needs_refresh(1060));
    assert!(!d.needs_refresh(999));
    assert!(!d.needs_refresh(0));
    let mut cache = AnisetteCache::new();
    assert!(cache.fresh(1000).is_none());
    cache.store(d);
    assert!(cache.fresh(1030).is_some());
    assert!(cache.fresh(2000).is_none());
    assert!(cache.fresh(10).is_some());
}
