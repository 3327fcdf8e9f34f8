use vstd::prelude::*;
use vstd::string::*;
use vstd::utf8::encode_utf8;

use crate::anisette::{AnisetteData, anisette_headers_of, pair, pairs_view};
use crate::crypto::{aes256_gcm_open, aes256_gcm_open_of, base64_encode, base64_of, hmac_sha256, hmac_sha256_of};
use crate::error::Error;
use crate::grandslam::{check_grandslam_error, grandslam_code, grandslam_message};
use crate::login::LoginState;
use crate::plist::{PlistDict, PlistValue, data_at, dict_at, int_at, str_at};
use crate::requests::{AuthTokenRequest, is_envelope, is_token_body};
use crate::text::{contains_seq, copy_bytes, owned, str_contains};

verus! {

/// Iterations of the login loop before it gives up.
pub const MAX_LOGIN_ATTEMPTS: u32 = 10;

/// The keys a session private data dictionary must hold, with their kinds;
/// the session key `sk` is 32 bytes.
pub open spec fn spd_complete(d: PlistDict) -> bool {
    &&& str_at(d, "adsid"@) is Some
    &&& str_at(d, "GsIdmsToken"@) is Some
    &&& data_at(d, "sk"@) matches Some(k) && k.len() == 32
    &&& data_at(d, "c"@) is Some
}

/// The PET token of a session private data dictionary, if it holds one.
pub open spec fn pet_of(d: PlistDict) -> Option<Seq<char>> {
    match dict_at(d, "t"@) {
        Some(t) => match dict_at(t, "com.apple.gs.idms.pet"@) {
            Some(p) => str_at(p, "token"@),
            None => None,
        },
        None => None,
    }
}

/// The next thing the login loop does.
#[derive(Debug)]
pub enum LoginStep {
    /// The account is logged in.
    Done,
    /// Run the SRP exchange and record its outcome.
    RunSrp,
    /// Run the trusted-device flow, then record that a new login is needed.
    TrustedDevice2FA,
    /// Run the SMS flow, then record that a new login is needed.
    Sms2FA,
    /// The state changed without outside work; take the next step.
    Continue,
    /// Stop with this error.
    Failed(Error),
}

/// The decrypted app token.
#[derive(Debug, Clone)]
pub struct AppToken {
    pub token: String,
    pub duration: u64,
    pub expiry: u64,
}

/// An Apple ID account: its email, session private data (after a successful
/// SRP exchange) and login state.
#[derive(Debug)]
pub struct AppleAccount {
    pub email: String,
    pub spd: Option<PlistDict>,
    pub login_state: LoginState,
}

impl AppleAccount {
    /// Session private data is present and complete, and the account is only
    /// logged in when it is present.
    pub open spec fn wf(self) -> bool {
        &&& self.spd matches Some(d) ==> spd_complete(d)
        &&& self.login_state is LoggedIn ==> self.spd is Some
    }

    pub fn new(email: &str) -> (r: AppleAccount)
        ensures
            r.email@ == email@,
            r.spd is None,
            r.login_state is NeedsLogin,
            r.wf(),
    {
        AppleAccount { email: owned(email), spd: None, login_state: LoginState::NeedsLogin }
    }

    /// Records a finished SRP exchange: its session private data (already
    /// parsed) and the state the server asked for. Data lacking one of the
    /// required keys is refused and the account is left as it was.
    pub fn accept_login(&mut self, spd: PlistDict, outcome_state: LoginState) -> (r: Result<(), Error>)
        requires
            old(self).wf(),
        ensures
            final(self).wf(),
            final(self).email == old(self).email,
            spd_complete(spd) ==> r is Ok && final(self).spd == Some(spd) && final(self).login_state == outcome_state,
            !spd_complete(spd) ==> (r matches Err(Error::ParseProtocol(_)) && final(self).spd == old(self).spd
                && final(self).login_state == old(self).login_state),
    {
        spd.get_str("adsid")?;
        spd.get_str("GsIdmsToken")?;
        let sk = spd.get_data("sk")?;
        if sk.len() != 32 {
            return Err(Error::ParseProtocol(owned("sk")));
        }
        spd.get_data("c")?;
        self.spd = Some(spd);
        self.login_state = outcome_state;
        Ok(())
    }

    /// Records that a two-factor flow succeeded: a new login is needed.
    pub fn two_factor_done(&mut self)
        requires
            old(self).wf(),
        ensures
            final(self).wf(),
            final(self).login_state is NeedsLogin,
            final(self).spd == old(self).spd,
            final(self).email == old(self).email,
    {
        self.login_state = LoginState::NeedsLogin;
    }

    /// One iteration of the login loop; `attempt` counts iterations from 1.
    pub fn next_login_step(&mut self, attempt: u32) -> (r: LoginStep)
        requires
            old(self).wf(),
        ensures
            final(self).wf(),
            final(self).spd == old(self).spd,
            final(self).email == old(self).email,
            attempt > MAX_LOGIN_ATTEMPTS ==> (r matches LoginStep::Failed(Error::MaxLoginAttempts)
                && final(self).login_state == old(self).login_state),
            attempt <= MAX_LOGIN_ATTEMPTS ==> match old(self).login_state {
                LoginState::LoggedIn => r is Done && final(self).login_state is LoggedIn,
                LoginState::NeedsDevice2FA => r is TrustedDevice2FA && final(self).login_state == old(self).login_state,
                LoginState::NeedsSMS2FA => r is Sms2FA && final(self).login_state == old(self).login_state,
                LoginState::NeedsLogin => r is RunSrp && final(self).login_state == old(self).login_state,
                LoginState::NeedsExtraStep(s) => match old(self).spd {
                    Some(d) if pet_of(d) is Some => r is Continue && final(self).login_state is LoggedIn,
                    _ => r matches LoginStep::Failed(Error::ExtraStepRequired(x)) && x == s
                        && final(self).login_state == old(self).login_state,
                },
            },
            r is Done ==> final(self).login_state is LoggedIn && final(self).spd is Some,
    {
        if attempt > MAX_LOGIN_ATTEMPTS {
            return LoginStep::Failed(Error::MaxLoginAttempts);
        }
        match &self.login_state {
            LoginState::LoggedIn => LoginStep::Done,
            LoginState::NeedsDevice2FA => LoginStep::TrustedDevice2FA,
            LoginState::NeedsSMS2FA => LoginStep::Sms2FA,
            LoginState::NeedsLogin => LoginStep::RunSrp,
            LoginState::NeedsExtraStep(s) => {
                if self.get_pet().is_ok() {
                    self.login_state = LoginState::LoggedIn;
                    LoginStep::Continue
                } else {
                    LoginStep::Failed(Error::ExtraStepRequired(s.clone()))
                }
            },
        }
    }

    /// The PET token of the session.
    pub fn get_pet(&self) -> (r: Result<String, Error>)
        ensures
            match self.spd {
                None => r matches Err(Error::NotLoggedIn),
                Some(d) => match pet_of(d) {
                    Some(p) => r matches Ok(v) && v@ == p,
                    None => r matches Err(Error::ParseProtocol(_)),
                },
            },
    {
        let spd = match &self.spd {
            Some(d) => d,
            None => return Err(Error::NotLoggedIn),
        };
        let t = spd.get_dict("t")?;
        let pet = t.get_dict("com.apple.gs.idms.pet")?;
        let token = pet.get_str("token")?;
        Ok(token.clone())
    }

    /// The first and last name of the account holder.
    pub fn get_name(&self) -> (r: Result<(String, String), Error>)
        ensures
            match self.spd {
                None => r matches Err(Error::NotLoggedIn),
                Some(d) => match (str_at(d, "fn"@), str_at(d, "ln"@)) {
                    (Some(f), Some(l)) => r matches Ok((a, b)) && a@ == f && b@ == l,
                    _ => r matches Err(Error::ParseProtocol(_)),
                },
            },
    {
        let spd = match &self.spd {
            Some(d) => d,
            None => return Err(Error::NotLoggedIn),
        };
        let first = spd.get_str("fn")?;
        let last = spd.get_str("ln")?;
        Ok((first.clone(), last.clone()))
    }

    /// `Apple Account: <first> <last> <email> (<state>)`, the name left out
    /// when it is not known.
    pub fn describe(&self) -> (r: String)
        ensures
            r@ == "Apple Account: "@ + match self.spd {
                Some(d) if str_at(d, "fn"@) is Some && str_at(d, "ln"@) is Some =>
                    str_at(d, "fn"@)->0 + " "@ + str_at(d, "ln"@)->0 + " "@,
                _ => Seq::<char>::empty(),
            } + self.email@ + " ("@ + crate::login::state_text(self.login_state) + ")"@,
    {
        let mut r = owned("Apple Account: ");
        match self.get_name() {
            Ok((first, last)) => {
                r.append(first.as_str());
                r.append(" ");
                r.append(last.as_str());
                r.append(" ");
            },
            Err(_) => {},
        }
        r.append(self.email.as_str());
        r.append(" (");
        let st = self.login_state.describe();
        r.append(st.as_str());
        r.append(")");
        r
    }

    /// The headers of the two-factor endpoints: the anisette headers, the
    /// identity token `base64("adsid:GsIdmsToken")` and the routing info.
    pub fn two_factor_headers(&self, anisette: &AnisetteData) -> (r: Result<Vec<(String, String)>, Error>)
        requires
            self.wf(),
        ensures
            match self.spd {
                None => r matches Err(Error::NotLoggedIn),
                Some(d) => r matches Ok(h) && pairs_view(h@) == anisette_headers_of(*anisette) + seq![
                    ("X-Apple-Identity-Token"@, base64_of(encode_utf8(
                        str_at(d, "adsid"@)->0 + ":"@ + str_at(d, "GsIdmsToken"@)->0))),
                    ("X-Apple-I-MD-RINFO"@, anisette.routing_info@),
                ],
            },
    {
        let spd = match &self.spd {
            Some(d) => d,
            None => return Err(Error::NotLoggedIn),
        };
        let adsid = spd.get_str("adsid")?;
        let token = spd.get_str("GsIdmsToken")?;
        let mut identity = adsid.clone();
        identity.append(":");
        identity.append(token.as_str());
        let encoded = base64_encode(identity.as_str().as_bytes());
        let mut h = anisette.get_headers();
        h.push(pair("X-Apple-Identity-Token", encoded.as_str()));
        h.push(pair("X-Apple-I-MD-RINFO", anisette.routing_info.as_str()));
        assert(pairs_view(h@) =~= anisette_headers_of(*anisette) + seq![
            ("X-Apple-Identity-Token"@, base64_of(encode_utf8(
                str_at(*spd, "adsid"@)->0 + ":"@ + str_at(*spd, "GsIdmsToken"@)->0))),
            ("X-Apple-I-MD-RINFO"@, anisette.routing_info@),
        ]);
        Ok(h)
    }
}

/// A logged-in account holds session private data, and that data carries
/// `adsid`, `GsIdmsToken`, `sk` and `c`.
pub proof fn logged_in_has_session(account: AppleAccount)
    requires
        account.wf(),
        account.login_state is LoggedIn,
    ensures
        account.spd matches Some(d) && spd_complete(d),
{
}

/// The code the two-factor callback gave; no code, or an empty one, is
/// `No2FACodeProvided`.
pub fn require_code(code: Option<String>) -> (r: Result<String, Error>)
    ensures
        match code {
            Some(c) => if c@.len() > 0 {
                r == Ok::<String, Error>(c)
            } else {
                r matches Err(Error::No2FACodeProvided)
            },
            None => r matches Err(Error::No2FACodeProvided),
        },
{
    match code {
        Some(c) => if c.as_str().unicode_len() > 0 {
            Ok(c)
        } else {
            Err(Error::No2FACodeProvided)
        },
        None => Err(Error::No2FACodeProvided),
    }
}

/// The first entry of `serviceErrors` in a refused SMS submission.
#[derive(Debug, Clone)]
pub struct ServiceError {
    pub code: Option<String>,
    pub title: Option<String>,
    pub message: Option<String>,
}

pub open spec fn or_default(s: Option<String>, d: Seq<char>) -> Seq<char> {
    match s {
        Some(x) => x@,
        None => d,
    }
}

fn take_or(s: Option<String>, d: &str) -> (r: String)
    ensures
        r@ == or_default(s, d@),
{
    match s {
        Some(x) => x,
        None => owned(d),
    }
}

/// The error of a refused SMS code submission: the service error when the
/// body held one, else the HTTP status and body.
pub fn sms_failure(status: u16, body: String, service_error: Option<ServiceError>) -> (r: Error)
    ensures
        match service_error {
            Some(e) => r matches Error::Bad2FACode(c, t, m) && c@ == or_default(e.code, "unknown"@)
                && t@ == or_default(e.title, "No title provided"@)
                && m@ == or_default(e.message, "No message provided"@),
            None => r matches Error::SmsRejected(s, b) && s == status && b == body,
        },
{
    match service_error {
        Some(e) => Error::Bad2FACode(
            take_or(e.code, "unknown"),
            take_or(e.title, "No title provided"),
            take_or(e.message, "No message provided"),
        ),
        None => Error::SmsRejected(status, body),
    }
}

/// The app name in full: prefixed with `com.apple.gs.` unless it holds it.
pub open spec fn full_app_name(app: Seq<char>) -> Seq<char> {
    if contains_seq(app, "com.apple.gs."@) {
        app
    } else {
        "com.apple.gs."@ + app
    }
}

pub fn normalize_app_name(app: &str) -> (r: String)
    ensures
        r@ == full_app_name(app@),
{
    if str_contains(app, "com.apple.gs.") {
        owned(app)
    } else {
        let mut r = owned("com.apple.gs.");
        r.append(app);
        r
    }
}

/// The message the app-token checksum authenticates.
pub open spec fn checksum_message(adsid: Seq<char>, app: Seq<char>) -> Seq<u8> {
    encode_utf8("apptokens"@) + encode_utf8(adsid) + encode_utf8(app)
}

fn append_bytes(out: &mut Vec<u8>, b: &[u8])
    ensures
        final(out)@ == old(out)@ + b@,
{
    let mut i: usize = 0;
    while i < b.len()
        invariant
            i <= b@.len(),
            out@ == old(out)@ + b@.subrange(0, i as int),
        decreases b@.len() - i,
    {
        out.push(b[i]);
        assert(b@.subrange(0, i + 1) =~= b@.subrange(0, i as int).push(b@[i as int]));
        i = i + 1;
    }
    assert(b@.subrange(0, b@.len() as int) =~= b@);
}

/// `HMAC-SHA256(sk, "apptokens" || adsid || app)`.
pub fn app_token_checksum(session_key: &[u8], adsid: &str, app: &str) -> (r: Vec<u8>)
    ensures
        r@ == hmac_sha256_of(session_key@, checksum_message(adsid@, app@)),
{
    let mut msg: Vec<u8> = Vec::new();
    append_bytes(&mut msg, "apptokens".as_bytes());
    append_bytes(&mut msg, adsid.as_bytes());
    append_bytes(&mut msg, app.as_bytes());
    assert(msg@ =~= checksum_message(adsid@, app@));
    hmac_sha256(session_key, msg.as_slice())
}

/// An `apptokens` request ready to send, with what reading its answer needs.
#[derive(Debug)]
pub struct AppTokenRequest {
    pub app_name: String,
    pub session_key: Vec<u8>,
    pub body: PlistDict,
}

impl AppleAccount {
    /// Builds the `apptokens` request for `app`.
    pub fn app_token_request(&self, app: &str, anisette: &AnisetteData) -> (r: Result<AppTokenRequest, Error>)
        requires
            self.wf(),
        ensures
            match self.spd {
                None => r matches Err(Error::NotLoggedIn),
                Some(d) => r matches Ok(q) && q.app_name@ == full_app_name(app@)
                    && q.session_key@ == data_at(d, "sk"@)->0
                    && (q.body.entries@[1].1 matches PlistValue::Dict(b) && is_envelope(q.body, b)
                    && (b.entries@[3].1 matches PlistValue::Dict(cpd)
                    && crate::anisette::is_string_dict(cpd, crate::anisette::cpd_of(*anisette))
                    && is_token_body(b, full_app_name(app@), data_at(d, "c"@)->0,
                        hmac_sha256_of(data_at(d, "sk"@)->0, checksum_message(str_at(d, "adsid"@)->0, full_app_name(app@))),
                        cpd, str_at(d, "adsid"@)->0, str_at(d, "GsIdmsToken"@)->0))),
            },
    {
        let app_name = normalize_app_name(app);
        let spd = match &self.spd {
            Some(d) => d,
            None => return Err(Error::NotLoggedIn),
        };
        let dsid = spd.get_str("adsid")?;
        let auth_token = spd.get_str("GsIdmsToken")?;
        let session_key = spd.get_data("sk")?;
        let c = spd.get_data("c")?;
        let checksum = app_token_checksum(session_key.as_slice(), dsid.as_str(), app_name.as_str());
        let cpd = anisette.get_client_provided_data();
        let req = AuthTokenRequest::new(app_name.as_str(), copy_bytes(c.as_slice()), checksum, cpd,
            dsid.as_str(), auth_token.as_str());
        let body = req.to_plist();
        Ok(AppTokenRequest { app_name, session_key: copy_bytes(session_key.as_slice()), body })
    }
}

/// The magic that opens an encrypted app-token blob.
pub open spec fn token_magic() -> Seq<u8> {
    seq![0x58u8, 0x59u8, 0x5au8]
}

/// The outcome of opening an `et` blob: `"XYZ"`, a 16-byte IV, then the
/// AES-256-GCM ciphertext with its tag, authenticated with the magic.
pub open spec fn gcm_outcome(data: Seq<u8>, key: Seq<u8>) -> Result<Seq<u8>, ()> {
    if data.len() < 35 || data.subrange(0, 3) != token_magic() || key.len() != 32 {
        Err(())
    } else {
        match aes256_gcm_open_of(key, data.subrange(3, 19), token_magic(), data.subrange(19, data.len() as int)) {
            Some(p) => Ok(p),
            None => Err(()),
        }
    }
}

fn sub_bytes(v: &[u8], from: usize, to: usize) -> (r: Vec<u8>)
    requires
        from <= to <= v@.len(),
    ensures
        r@ == v@.subrange(from as int, to as int),
{
    let mut out: Vec<u8> = Vec::new();
    let mut i: usize = from;
    while i < to
        invariant
            from <= i <= to <= v@.len(),
            out@ == v@.subrange(from as int, i as int),
        decreases to - i,
    {
        out.push(v[i]);
        assert(v@.subrange(from as int, i + 1) =~= v@.subrange(from as int, i as int).push(v@[i as int]));
        i = i + 1;
    }
    out
}

/// Opens an encrypted app-token blob with the session key.
pub fn decrypt_gcm(data: &[u8], key: &[u8]) -> (r: Result<Vec<u8>, Error>)
    ensures
        data@.len() < 35 ==> r matches Err(Error::ParseProtocol(_)),
        data@.len() >= 35 && data@.subrange(0, 3) != token_magic() ==> (r matches Err(Error::AuthWithMessage(c, m))
            && c == 0 && m@ == "unknown format"@),
        match gcm_outcome(data@, key@) {
            Ok(p) => r matches Ok(v) && v@ == p,
            Err(_) => r is Err,
        },
{
    if data.len() < 35 {
        return Err(Error::ParseProtocol(owned("et")));
    }
    let header = sub_bytes(data, 0, 3);
    if !(header[0] == 0x58u8 && header[1] == 0x59u8 && header[2] == 0x5au8) {
        assert(header@ != token_magic()) by {
            if header@ == token_magic() {
                assert(header@[0] == 0x58u8);
            }
        }
        return Err(Error::AuthWithMessage(0, owned("unknown format")));
    }
    assert(header@ =~= token_magic());
    if key.len() != 32 {
        return Err(Error::Decryption(owned("session key")));
    }
    let iv = sub_bytes(data, 3, 19);
    let sealed = sub_bytes(data, 19, data.len());
    match aes256_gcm_open(key, iv.as_slice(), header.as_slice(), sealed.as_slice()) {
        Some(p) => Ok(p),
        None => Err(Error::Decryption(owned("app token"))),
    }
}

/// Reads the `apptokens` answer (the `Response` dictionary) and opens its `et` blob.
pub fn open_app_token_response(resp: &PlistDict, session_key: &[u8]) -> (r: Result<Vec<u8>, Error>)
    ensures
        grandslam_code(*resp) != 0 ==> (r matches Err(Error::AuthWithMessage(c, m))
            && c == grandslam_code(*resp) && m@ == grandslam_message(*resp)),
        grandslam_code(*resp) == 0 ==> match data_at(*resp, "et"@) {
            None => r matches Err(Error::ParseProtocol(_)),
            Some(et) => {
                &&& et.len() < 35 ==> (r matches Err(Error::ParseProtocol(_)))
                &&& et.len() >= 35 && et.subrange(0, 3) != token_magic() ==> (r matches Err(
                    Error::AuthWithMessage(c, m),
                ) && c == 0 && m@ == "unknown format"@)
                &&& match gcm_outcome(et, session_key@) {
                    Ok(p) => r matches Ok(v) && v@ == p,
                    Err(_) => r is Err,
                }
            },
        },
{
    check_grandslam_error(resp)?;
    let et = resp.get_data("et")?;
    decrypt_gcm(et.as_slice(), session_key)
}

/// The token of `app` in a decrypted token bag, if the bag is well formed.
pub open spec fn token_entry(bag: PlistDict, app: Seq<char>) -> Option<PlistDict> {
    match dict_at(bag, "t"@) {
        Some(t) => dict_at(t, app),
        None => None,
    }
}

/// Reads the decrypted token bag (already parsed) for `app_name`.
pub fn decode_app_token(bag: &PlistDict, app_name: &str) -> (r: Result<AppToken, Error>)
    ensures
        int_at(*bag, "status-code"@) is None ==> r matches Err(Error::ParseProtocol(_)),
        (int_at(*bag, "status-code"@) matches Some(s) && s != 200) ==> (r matches Err(Error::AppTokenStatus(x))
            && x == int_at(*bag, "status-code"@)->0),
        int_at(*bag, "status-code"@) == Some(200i64) ==> match token_entry(*bag, app_name@) {
            Some(e) => match (str_at(e, "token"@), int_at(e, "duration"@), int_at(e, "expiry"@)) {
                (Some(t), Some(d), Some(x)) => r matches Ok(tok) && tok.token@ == t
                    && tok.duration == d as u64 && tok.expiry == x as u64,
                _ => r matches Err(Error::ParseProtocol(_)),
            },
            None => r matches Err(Error::ParseProtocol(_)),
        },
{
    let status = bag.get_signed_integer("status-code")?;
    if status != 200 {
        return Err(Error::AppTokenStatus(status));
    }
    let t = bag.get_dict("t")?;
    let entry = t.get_dict(app_name)?;
    let token = entry.get_str("token")?;
    let duration = entry.get_signed_integer("duration")?;
    let expiry = entry.get_signed_integer("expiry")?;
    Ok(AppToken { token: token.clone(), duration: duration as u64, expiry: expiry as u64 })
}

} // verus!
