use vstd::prelude::*;

use crate::crypto::{
    base64_decode, base64_decode_of, base64_encode, base64_of, hex_encode, hex_of, random_16,
    sha256, sha256_of, uuid_string, uuid_text,
};
use crate::error::Error;
use crate::plist::{PlistDict, PlistValue, data_at, dict_at, push_str, push_value, str_at};
use crate::requests::data_entry_is;
use crate::text::owned;

verus! {

/// A header name and value, by their characters.
pub open spec fn pairs_view(v: Seq<(String, String)>) -> Seq<(Seq<char>, Seq<char>)> {
    v.map_values(|p: (String, String)| (p.0@, p.1@))
}

/// Whether `d` holds exactly the string entries `kv`, in order.
pub open spec fn is_string_dict(d: PlistDict, kv: Seq<(Seq<char>, Seq<char>)>) -> bool {
    &&& d.entries@.len() == kv.len()
    &&& forall|i: int|
        0 <= i < kv.len() ==> {
            &&& (#[trigger] d.entries@[i]).0@ == kv[i].0
            &&& d.entries@[i].1 matches PlistValue::Str(s) && s@ == kv[i].1
        }
}

pub fn pair(k: &str, v: &str) -> (r: (String, String))
    ensures
        r.0@ == k@,
        r.1@ == v@,
{
    (owned(k), owned(v))
}

/// The persistent device identity behind anisette attestation.
#[derive(Debug)]
pub struct AnisetteState {
    pub keychain_identifier: [u8; 16],
    pub adi_pb: Option<Vec<u8>>,
}

impl AnisetteState {
    /// A fresh identity: 16 random bytes, not provisioned.
    pub fn new() -> (r: AnisetteState)
        ensures
            r.adi_pb is None,
    {
        AnisetteState { keychain_identifier: random_16(), adi_pb: None }
    }

    pub fn is_provisioned(&self) -> (r: bool)
        ensures
            r == self.adi_pb is Some,
    {
        self.adi_pb.is_some()
    }

    /// The state loaded from storage, or a fresh one when nothing could be loaded.
    pub fn restore(loaded: Option<AnisetteState>) -> (r: AnisetteState)
        ensures
            match loaded {
                Some(s) => r == s,
                None => r.adi_pb is None,
            },
    {
        match loaded {
            Some(s) => s,
            None => AnisetteState::new(),
        }
    }

    /// The stored form: `keychain_identifier`, then `adi_pb` when provisioned.
    pub fn to_plist(&self) -> (r: PlistDict)
        ensures
            is_state_dict(r, *self),
    {
        let mut d = PlistDict::new();
        push_value(&mut d, "keychain_identifier", PlistValue::Data(crate::text::copy_bytes(&self.keychain_identifier)));
        match &self.adi_pb {
            Some(pb) => push_value(&mut d, "adi_pb", PlistValue::Data(crate::text::copy_bytes(pb.as_slice()))),
            None => {},
        }
        d
    }

    /// Reads the stored form back.
    pub fn from_plist(d: &PlistDict) -> (r: Result<AnisetteState, Error>)
        ensures
            match stored_fields(*d) {
                Some(f) => r matches Ok(s) && state_fields(s) == f,
                None => r matches Err(Error::ParseProtocol(_)),
            },
    {
        let id = d.get_data("keychain_identifier")?;
        if id.len() != 16 {
            return Err(Error::ParseProtocol(owned("keychain_identifier")));
        }
        let mut keychain_identifier = [0u8; 16];
        let mut i: usize = 0;
        while i < 16
            invariant
                id@.len() == 16,
                i <= 16,
                forall|j: int| 0 <= j < i ==> keychain_identifier@[j] == id@[j],
            decreases 16 - i,
        {
            keychain_identifier[i] = id[i];
            i = i + 1;
        }
        assert(keychain_identifier@ =~= id@);
        let adi_pb = match d.get("adi_pb") {
            None => None,
            Some(PlistValue::Data(b)) => Some(crate::text::copy_bytes(b.as_slice())),
            Some(_) => return Err(Error::ParseProtocol(owned("adi_pb"))),
        };
        Ok(AnisetteState { keychain_identifier, adi_pb })
    }

    /// The local-user identifier: SHA-256 of the keychain identifier.
    pub fn get_md_lu(&self) -> (r: Vec<u8>)
        ensures
            r@ == sha256_of(self.keychain_identifier@),
            r@.len() == 32,
    {
        sha256(&self.keychain_identifier)
    }

    /// The device UUID: the canonical UUID text of the keychain identifier.
    pub fn get_device_id(&self) -> (r: String)
        ensures
            r@ == uuid_text(self.keychain_identifier@),
    {
        uuid_string(self.keychain_identifier)
    }

    /// The reduced header set sent with provisioning requests.
    pub fn provisioning_headers(&self) -> (r: Vec<(String, String)>)
        ensures
            pairs_view(r@) == seq![
                ("X-Apple-I-MD-LU"@, hex_of(sha256_of(self.keychain_identifier@))),
                ("X-Mme-Device-Id"@, uuid_text(self.keychain_identifier@)),
            ],
    {
        let md_lu = self.get_md_lu();
        let lu = hex_encode(&md_lu);
        let id = self.get_device_id();
        let mut r: Vec<(String, String)> = Vec::new();
        r.push(pair("X-Apple-I-MD-LU", lu.as_str()));
        r.push(pair("X-Mme-Device-Id", id.as_str()));
        assert(pairs_view(r@) =~= seq![
            ("X-Apple-I-MD-LU"@, hex_of(sha256_of(self.keychain_identifier@))),
            ("X-Mme-Device-Id"@, uuid_text(self.keychain_identifier@)),
        ]);
        r
    }

    /// The `identifier` and `adi_pb` fields of a header request, base64-encoded.
    pub fn header_request_fields(&self) -> (r: Result<(String, String), Error>)
        ensures
            match self.adi_pb {
                Some(pb) => r matches Ok((id, p)) && id@ == base64_of(self.keychain_identifier@)
                    && p@ == base64_of(pb@),
                None => r matches Err(Error::AnisetteNotProvisioned),
            },
    {
        match &self.adi_pb {
            Some(pb) => Ok((base64_encode(&self.keychain_identifier), base64_encode(pb.as_slice()))),
            None => Err(Error::AnisetteNotProvisioned),
        }
    }
}

/// The identity and provisioning blob of a state, as byte strings.
pub open spec fn state_fields(s: AnisetteState) -> (Seq<u8>, Option<Seq<u8>>) {
    (s.keychain_identifier@, match s.adi_pb {
        Some(b) => Some(b@),
        None => None,
    })
}

/// What a stored dictionary holds, if it is a valid stored state.
pub open spec fn stored_fields(d: PlistDict) -> Option<(Seq<u8>, Option<Seq<u8>>)> {
    match data_at(d, "keychain_identifier"@) {
        Some(k) => if k.len() == 16 {
            match d.spec_get("adi_pb"@) {
                None => Some((k, None)),
                Some(PlistValue::Data(b)) => Some((k, Some(b@))),
                Some(_) => None,
            }
        } else {
            None
        },
        None => None,
    }
}

/// Whether `d` is the stored form of `s`.
pub open spec fn is_state_dict(d: PlistDict, s: AnisetteState) -> bool {
    &&& data_entry_is(d, 0, "keychain_identifier"@, s.keychain_identifier@)
    &&& match s.adi_pb {
        Some(pb) => d.entries@.len() == 2 && data_entry_is(d, 1, "adi_pb"@, pb@),
        None => d.entries@.len() == 1,
    }
}

/// The device identifier survives storage: it is computed from the stored
/// keychain identifier alone.
pub proof fn device_id_survives_storage(s: AnisetteState, d: PlistDict)
    requires
        is_state_dict(d, s),
    ensures
        stored_fields(d) matches Some(f) && uuid_text(f.0) == uuid_text(s.keychain_identifier@),
{
    anisette_state_round_trip(s, d);
}

/// Storing a state and reading it back gives the same state.
pub proof fn anisette_state_round_trip(s: AnisetteState, d: PlistDict)
    requires
        is_state_dict(d, s),
    ensures
        stored_fields(d) == Some(state_fields(s)),
{
    reveal_strlit("keychain_identifier");
    reveal_strlit("adi_pb");
    let k = "keychain_identifier"@;
    let a = "adi_pb"@;
    assert(k.len() != a.len());
    assert(d.entries@.subrange(0, 1).drop_last() =~= Seq::<(String, PlistValue)>::empty());
    let es = d.entries@;
    if s.adi_pb is Some {
        let first = es.drop_last();
        assert(first.len() == 1 && first.last() == es[0]);
        assert(first.drop_last() =~= Seq::<(String, PlistValue)>::empty());
        assert(es.last().0@ == a);
        assert(es.last().0@ != k);
        assert(crate::plist::entries_get(first, k) == Some(es[0].1));
        assert(d.spec_get(k) == Some(es[0].1));
        assert(d.spec_get(a) == Some(es[1].1));
    } else {
        assert(es.drop_last() =~= Seq::<(String, PlistValue)>::empty());
        assert(es.last().0@ != a);
        assert(d.spec_get(k) == Some(es[0].1));
        assert(crate::plist::entries_get(es.drop_last(), a) is None);
        assert(d.spec_get(a) is None);
    }
}

/// `{client_info, user_agent}` as the anisette service reports them.
#[derive(Debug, Clone)]
pub struct AnisetteClientInfo {
    pub client_info: String,
    pub user_agent: String,
}

/// A per-request attestation snapshot; `generated_at` is in seconds.
#[derive(Debug)]
pub struct AnisetteData {
    pub machine_id: String,
    pub one_time_password: String,
    pub routing_info: String,
    pub device_description: String,
    pub device_unique_identifier: String,
    pub local_user_id: String,
    pub generated_at: u64,
}

/// Seconds after which a snapshot is stale.
pub const ANISETTE_LIFETIME_SECS: u64 = 60;

/// The attestation headers of a snapshot.
pub open spec fn anisette_headers_of(d: AnisetteData) -> Seq<(Seq<char>, Seq<char>)> {
    seq![
        ("X-Mme-Device-Id"@, d.device_unique_identifier@),
        ("X-Apple-I-MD"@, d.one_time_password@),
        ("X-Apple-I-MD-M"@, d.machine_id@),
    ]
}

/// The fixed part of the client-provided data.
pub open spec fn cpd_fixed() -> Seq<(Seq<char>, Seq<char>)> {
    seq![
        ("bootstrap"@, "true"@),
        ("icscrec"@, "true"@),
        ("loc"@, "en_US"@),
        ("pbe"@, "false"@),
        ("prkgen"@, "true"@),
        ("svct"@, "iCloud"@),
    ]
}

/// The client-provided data of a snapshot: the fixed map, then its headers.
pub open spec fn cpd_of(d: AnisetteData) -> Seq<(Seq<char>, Seq<char>)> {
    cpd_fixed() + anisette_headers_of(d)
}

impl AnisetteData {
    /// Builds a snapshot from the headers the anisette service returned.
    pub fn from_headers(
        state: &AnisetteState,
        machine_id: String,
        one_time_password: String,
        routing_info: String,
        device_description: String,
        generated_at: u64,
    ) -> (r: AnisetteData)
        ensures
            r.machine_id == machine_id,
            r.one_time_password == one_time_password,
            r.routing_info == routing_info,
            r.device_description == device_description,
            r.device_unique_identifier@ == uuid_text(state.keychain_identifier@),
            r.local_user_id@ == hex_of(sha256_of(state.keychain_identifier@)),
            r.generated_at == generated_at,
    {
        let md_lu = state.get_md_lu();
        AnisetteData {
            machine_id,
            one_time_password,
            routing_info,
            device_description,
            device_unique_identifier: state.get_device_id(),
            local_user_id: hex_encode(&md_lu),
            generated_at,
        }
    }

    /// The headers every GrandSlam request carries from this snapshot.
    pub fn get_headers(&self) -> (r: Vec<(String, String)>)
        ensures
            pairs_view(r@) == anisette_headers_of(*self),
    {
        let mut r: Vec<(String, String)> = Vec::new();
        r.push(pair("X-Mme-Device-Id", self.device_unique_identifier.as_str()));
        r.push(pair("X-Apple-I-MD", self.one_time_password.as_str()));
        r.push(pair("X-Apple-I-MD-M", self.machine_id.as_str()));
        assert(pairs_view(r@) =~= anisette_headers_of(*self));
        r
    }

    /// The `cpd` dictionary of login and app-token requests.
    pub fn get_client_provided_data(&self) -> (r: PlistDict)
        ensures
            is_string_dict(r, cpd_of(*self)),
    {
        let mut d = PlistDict::new();
        push_str(&mut d, "bootstrap", "true");
        push_str(&mut d, "icscrec", "true");
        push_str(&mut d, "loc", "en_US");
        push_str(&mut d, "pbe", "false");
        push_str(&mut d, "prkgen", "true");
        push_str(&mut d, "svct", "iCloud");
        push_str(&mut d, "X-Mme-Device-Id", self.device_unique_identifier.as_str());
        push_str(&mut d, "X-Apple-I-MD", self.one_time_password.as_str());
        push_str(&mut d, "X-Apple-I-MD-M", self.machine_id.as_str());
        assert(is_string_dict(d, cpd_of(*self)));
        d
    }

    /// Whether the snapshot is stale at time `now` (seconds): at least a
    /// lifetime old. A snapshot dated after `now` is still fresh.
    pub fn needs_refresh(&self, now: u64) -> (r: bool)
        ensures
            r == (now >= self.generated_at && now - self.generated_at >= ANISETTE_LIFETIME_SECS),
    {
        now >= self.generated_at && now - self.generated_at >= ANISETTE_LIFETIME_SECS
    }
}

/// The last snapshot handed out, reused while it is fresh.
#[derive(Debug)]
pub struct AnisetteCache {
    pub data: Option<AnisetteData>,
}

impl AnisetteCache {
    pub fn new() -> (r: AnisetteCache)
        ensures
            r.data is None,
    {
        AnisetteCache { data: None }
    }

    /// The cached snapshot if it is still fresh at `now`.
    pub fn fresh(&self, now: u64) -> (r: Option<&AnisetteData>)
        ensures
            match self.data {
                Some(d) => if now >= d.generated_at && now - d.generated_at >= ANISETTE_LIFETIME_SECS {
                    r is None
                } else {
                    r matches Some(x) && *x == d
                },
                None => r is None,
            },
    {
        match &self.data {
            Some(d) => if d.needs_refresh(now) {
                None
            } else {
                Some(d)
            },
            None => None,
        }
    }

    /// Replaces the cached snapshot.
    pub fn store(&mut self, data: AnisetteData)
        ensures
            final(self).data == Some(data),
    {
        self.data = Some(data);
    }
}

/// The WebSocket URL of a provisioning session: the https/http scheme of the
/// service URL mapped to wss/ws, and the session path appended.
pub open spec fn provisioning_socket_url(base: Seq<char>) -> Seq<char> {
    let path = "/v3/provisioning_session"@;
    if base.len() >= 8 && base.subrange(0, 8) == "https://"@ {
        "wss://"@ + base.subrange(8, base.len() as int) + path
    } else if base.len() >= 7 && base.subrange(0, 7) == "http://"@ {
        "ws://"@ + base.subrange(7, base.len() as int) + path
    } else {
        base + path
    }
}

fn has_prefix(s: &str, p: &str) -> (r: bool)
    ensures
        r == (s@.len() >= p@.len() && s@.subrange(0, p@.len() as int) == p@),
{
    let n = s.unicode_len();
    let m = p.unicode_len();
    if m > n {
        return false;
    }
    let head = s.substring_char(0, m);
    crate::text::str_eq(head, p)
}

pub fn websocket_url(base: &str) -> (r: String)
    ensures
        r@ == provisioning_socket_url(base@),
{
    proof {
        reveal_strlit("https://");
        reveal_strlit("http://");
    }
    let n = base.unicode_len();
    let mut out;
    if has_prefix(base, "https://") {
        out = owned("wss://");
        out.append(base.substring_char(8, n));
    } else if has_prefix(base, "http://") {
        out = owned("ws://");
        out.append(base.substring_char(7, n));
    } else {
        out = owned(base);
    }
    out.append("/v3/provisioning_session");
    out
}

/// A message of the provisioning WebSocket, by its `result` tag.
#[derive(Debug)]
pub enum ProvisioningMessage {
    GiveIdentifier,
    GiveStartProvisioningData,
    GiveEndProvisioningData { cpim: String },
    ProvisioningSuccess { adi_pb: String },
    Timeout,
    InvalidIdentifier,
    StartProvisioningError { message: String },
    EndProvisioningError { message: String },
}

/// What the client does next in a provisioning session.
#[derive(Debug)]
pub enum ProvisioningAction {
    /// Send `{identifier}` over the socket.
    SendIdentifier(String),
    /// POST this body to `midStartProvisioning`, then send `{spim}` from its response.
    StartProvisioning(PlistDict),
    /// POST this body to `midFinishProvisioning`, then send `{ptm, tk}` from its response.
    EndProvisioning(PlistDict),
    /// `adi_pb` is stored: close the socket and persist the state.
    Finished,
}

/// Whether `e` is the provisioning failure of `phase`, with `message`.
pub open spec fn is_provisioning_error(e: Error, phase: Seq<char>, message: Option<Seq<char>>) -> bool {
    e matches Error::Provisioning(p, m) && p@ == phase && match (m, message) {
        (Some(a), Some(b)) => a@ == b,
        (None, None) => true,
        _ => false,
    }
}

/// `{Header: {}, Request: {}}`.
pub open spec fn is_start_body(d: PlistDict) -> bool {
    &&& d.entries@.len() == 2
    &&& d.entries@[0].0@ == "Header"@
    &&& d.entries@[0].1 matches PlistValue::Dict(h) && h.entries@.len() == 0
    &&& d.entries@[1].0@ == "Request"@
    &&& d.entries@[1].1 matches PlistValue::Dict(q) && q.entries@.len() == 0
}

/// `{Header: {}, Request: {cpim}}`.
pub open spec fn is_end_body(d: PlistDict, cpim: Seq<char>) -> bool {
    &&& d.entries@.len() == 2
    &&& d.entries@[0].0@ == "Header"@
    &&& d.entries@[0].1 matches PlistValue::Dict(h) && h.entries@.len() == 0
    &&& d.entries@[1].0@ == "Request"@
    &&& d.entries@[1].1 matches PlistValue::Dict(q) && is_string_dict(q, seq![("cpim"@, cpim)])
}

pub fn start_provisioning_body() -> (r: PlistDict)
    ensures
        is_start_body(r),
{
    let mut d = PlistDict::new();
    d.insert(owned("Header"), PlistValue::Dict(PlistDict::new()));
    d.insert(owned("Request"), PlistValue::Dict(PlistDict::new()));
    d
}

pub fn end_provisioning_body(cpim: &str) -> (r: PlistDict)
    ensures
        is_end_body(r, cpim@),
{
    let mut q = PlistDict::new();
    push_str(&mut q, "cpim", cpim);
    assert(is_string_dict(q, seq![("cpim"@, cpim@)]));
    let mut d = PlistDict::new();
    d.insert(owned("Header"), PlistValue::Dict(PlistDict::new()));
    d.insert(owned("Request"), PlistValue::Dict(q));
    d
}

/// One step of the provisioning session: the client's answer to `msg`.
/// Only `ProvisioningSuccess` changes the state, and only its `adi_pb`.
pub fn provisioning_step(state: &mut AnisetteState, msg: ProvisioningMessage) -> (r: Result<ProvisioningAction, Error>)
    ensures
        final(state).keychain_identifier == old(state).keychain_identifier,
        match msg {
            ProvisioningMessage::GiveIdentifier => r matches Ok(ProvisioningAction::SendIdentifier(id))
                && id@ == base64_of(old(state).keychain_identifier@)
                && final(state).adi_pb == old(state).adi_pb,
            ProvisioningMessage::GiveStartProvisioningData => r matches Ok(ProvisioningAction::StartProvisioning(b))
                && is_start_body(b) && final(state).adi_pb == old(state).adi_pb,
            ProvisioningMessage::GiveEndProvisioningData { cpim } => r matches Ok(ProvisioningAction::EndProvisioning(b))
                && is_end_body(b, cpim@) && final(state).adi_pb == old(state).adi_pb,
            ProvisioningMessage::ProvisioningSuccess { adi_pb } => match base64_decode_of(adi_pb@) {
                Some(pb) => r matches Ok(ProvisioningAction::Finished)
                    && final(state).adi_pb matches Some(v) && v@ == pb,
                None => r matches Err(Error::ParseProtocol(k)) && k@ == "adi_pb"@
                    && final(state).adi_pb == old(state).adi_pb,
            },
            ProvisioningMessage::Timeout => r matches Err(e) && is_provisioning_error(e, "timeout"@, None)
                && final(state).adi_pb == old(state).adi_pb,
            ProvisioningMessage::InvalidIdentifier => r matches Err(e)
                && is_provisioning_error(e, "invalid identifier"@, None)
                && final(state).adi_pb == old(state).adi_pb,
            ProvisioningMessage::StartProvisioningError { message } => r matches Err(e)
                && is_provisioning_error(e, "start provisioning"@, Some(message@))
                && final(state).adi_pb == old(state).adi_pb,
            ProvisioningMessage::EndProvisioningError { message } => r matches Err(e)
                && is_provisioning_error(e, "end provisioning"@, Some(message@))
                && final(state).adi_pb == old(state).adi_pb,
        },
{
    match msg {
        ProvisioningMessage::GiveIdentifier => {
            Ok(ProvisioningAction::SendIdentifier(base64_encode(&state.keychain_identifier)))
        },
        ProvisioningMessage::GiveStartProvisioningData => {
            Ok(ProvisioningAction::StartProvisioning(start_provisioning_body()))
        },
        ProvisioningMessage::GiveEndProvisioningData { cpim } => {
            Ok(ProvisioningAction::EndProvisioning(end_provisioning_body(cpim.as_str())))
        },
        ProvisioningMessage::ProvisioningSuccess { adi_pb } => {
            match base64_decode(adi_pb.as_str()) {
                Some(pb) => {
                    state.adi_pb = Some(pb);
                    Ok(ProvisioningAction::Finished)
                },
                None => Err(Error::ParseProtocol(owned("adi_pb"))),
            }
        },
        ProvisioningMessage::Timeout => Err(Error::Provisioning(owned("timeout"), None)),
        ProvisioningMessage::InvalidIdentifier => {
            Err(Error::Provisioning(owned("invalid identifier"), None))
        },
        ProvisioningMessage::StartProvisioningError { message } => {
            Err(Error::Provisioning(owned("start provisioning"), Some(message)))
        },
        ProvisioningMessage::EndProvisioningError { message } => {
            Err(Error::Provisioning(owned("end provisioning"), Some(message)))
        },
    }
}

/// `Response.spim` of a start-provisioning reply.
pub fn spim_of(resp: &PlistDict) -> (r: Result<String, Error>)
    ensures
        match dict_at(*resp, "Response"@) {
            Some(d) => match str_at(d, "spim"@) {
                Some(s) => r matches Ok(v) && v@ == s,
                None => r is Err,
            },
            None => r is Err,
        },
{
    let d = resp.get_dict("Response")?;
    let s = d.get_str("spim")?;
    Ok(s.clone())
}

/// `Response.ptm` and `Response.tk` of a finish-provisioning reply.
pub fn ptm_tk_of(resp: &PlistDict) -> (r: Result<(String, String), Error>)
    ensures
        match dict_at(*resp, "Response"@) {
            Some(d) => match (str_at(d, "ptm"@), str_at(d, "tk"@)) {
                (Some(p), Some(t)) => r matches Ok((a, b)) && a@ == p && b@ == t,
                _ => r is Err,
            },
            None => r is Err,
        },
{
    let d = resp.get_dict("Response")?;
    let p = d.get_str("ptm")?;
    let t = d.get_str("tk")?;
    Ok((p.clone(), t.clone()))
}

} // verus!
