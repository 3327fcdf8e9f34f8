use vstd::prelude::*;
use vstd::utf8::encode_utf8;

use crate::anisette::AnisetteData;
use crate::crypto::{
    aes256_cbc_decrypt, aes256_cbc_decrypt_of, hex_encode, hex_of, hmac_sha256, hmac_sha256_of,
    pbkdf2_sha256, pbkdf2_sha256_of, sha256, sha256_of,
};
use crate::error::Error;
use crate::grandslam::{check_grandslam_error, grandslam_code, grandslam_message};
use crate::plist::{PlistDict, PlistValue, data_at, dict_at, int_at, str_at};
use crate::requests::{ChallengeRequest, InitRequest, is_challenge_body, is_envelope, is_init_body};
use crate::srp::{
    srp_process_reply, srp_public_ephemeral, srp_public_of, srp_reply_of, srp_server_proof_of,
    srp_verify_server,
};
use crate::text::{copy_bytes, owned, str_eq};

verus! {

/// Where an account stands in the login sequence.
#[derive(Debug)]
pub enum LoginState {
    LoggedIn,
    NeedsDevice2FA,
    NeedsSMS2FA,
    NeedsExtraStep(String),
    NeedsLogin,
}

/// The name of a login state, as it is shown to users.
pub open spec fn state_text(st: LoginState) -> Seq<char> {
    match st {
        LoginState::LoggedIn => "LoggedIn"@,
        LoginState::NeedsDevice2FA => "NeedsDevice2FA"@,
        LoginState::NeedsSMS2FA => "NeedsSMS2FA"@,
        LoginState::NeedsExtraStep(s) => "NeedsExtraStep("@ + s@ + ")"@,
        LoginState::NeedsLogin => "NeedsLogin"@,
    }
}

impl LoginState {
    pub fn describe(&self) -> (r: String)
        ensures
            r@ == state_text(*self),
    {
        match self {
            LoginState::LoggedIn => owned("LoggedIn"),
            LoginState::NeedsDevice2FA => owned("NeedsDevice2FA"),
            LoginState::NeedsSMS2FA => owned("NeedsSMS2FA"),
            LoginState::NeedsExtraStep(s) => {
                let mut r = owned("NeedsExtraStep(");
                r.append(s.as_str());
                r.append(")");
                r
            },
            LoginState::NeedsLogin => owned("NeedsLogin"),
        }
    }
}

/// The password derivation the server selected.
#[derive(Debug, Clone, Copy, PartialEq, Eq, Structural)]
pub enum SrpProtocol {
    S2k,
    S2kFo,
}

/// The protocol a `sp` value names, if it names one.
pub open spec fn protocol_of(sp: Seq<char>) -> Option<SrpProtocol> {
    if sp == "s2k"@ {
        Some(SrpProtocol::S2k)
    } else if sp == "s2k_fo"@ {
        Some(SrpProtocol::S2kFo)
    } else {
        None
    }
}

/// The PBKDF2 input: SHA-256 of the UTF-8 password, raw for `s2k`, as
/// lowercase hexadecimal text for `s2k_fo`.
pub open spec fn password_key_input(p: SrpProtocol, password: Seq<char>) -> Seq<u8> {
    let h = sha256_of(encode_utf8(password));
    match p {
        SrpProtocol::S2k => h,
        SrpProtocol::S2kFo => encode_utf8(hex_of(h)),
    }
}

/// The derived SRP password.
pub open spec fn derived_password(p: SrpProtocol, password: Seq<char>, salt: Seq<u8>, iterations: i64) -> Seq<u8> {
    pbkdf2_sha256_of(password_key_input(p, password), salt, iterations as u32)
}

/// Derives the SRP password from the user's password.
pub fn derive_password(password: &str, protocol: SrpProtocol, salt: &[u8], iterations: i64) -> (r: Vec<u8>)
    ensures
        r@ == derived_password(protocol, password@, salt@, iterations),
        r@.len() == 32,
{
    let hashed = sha256(password.as_bytes());
    match protocol {
        SrpProtocol::S2k => pbkdf2_sha256(hashed.as_slice(), salt, iterations as u32),
        SrpProtocol::S2kFo => {
            let text = hex_encode(hashed.as_slice());
            pbkdf2_sha256(text.as_str().as_bytes(), salt, iterations as u32)
        },
    }
}

/// HMAC-SHA256 of `name` under the session key.
pub fn create_session_key(key: &[u8], name: &str) -> (r: Vec<u8>)
    ensures
        r@ == hmac_sha256_of(key@, encode_utf8(name@)),
        r@.len() == 32,
{
    hmac_sha256(key, name.as_bytes())
}

/// The key that encrypts the session private data.
pub open spec fn spd_key_of(k: Seq<u8>) -> Seq<u8> {
    hmac_sha256_of(k, encode_utf8("extra data key:"@))
}

/// The IV that encrypts the session private data.
pub open spec fn spd_iv_of(k: Seq<u8>) -> Seq<u8> {
    hmac_sha256_of(k, encode_utf8("extra data iv:"@)).subrange(0, 16)
}

/// Decrypts the session private data with keys derived from the SRP session key.
pub fn decrypt_cbc(session_key: &[u8], data: &[u8]) -> (r: Result<Vec<u8>, Error>)
    ensures
        match aes256_cbc_decrypt_of(spd_key_of(session_key@), spd_iv_of(session_key@), data@) {
            Some(p) => r matches Ok(v) && v@ == p,
            None => r matches Err(Error::Decryption(_)),
        },
{
    let key = create_session_key(session_key, "extra data key:");
    let iv_full = create_session_key(session_key, "extra data iv:");
    let iv = slice_prefix(&iv_full, 16);
    match aes256_cbc_decrypt(key.as_slice(), iv.as_slice(), data) {
        Some(p) => Ok(p),
        None => Err(Error::Decryption(owned("spd"))),
    }
}

fn slice_prefix(v: &Vec<u8>, n: usize) -> (r: Vec<u8>)
    requires
        n <= v@.len(),
    ensures
        r@ == v@.subrange(0, n as int),
{
    let mut out: Vec<u8> = Vec::new();
    let mut i: usize = 0;
    while i < n
        invariant
            n <= v@.len(),
            i <= n,
            out@ == v@.subrange(0, i as int),
        decreases n - i,
    {
        out.push(v[i]);
        assert(v@.subrange(0, i + 1) =~= v@.subrange(0, i as int).push(v@[i as int]));
        i = i + 1;
    }
    out
}

/// What the server answered to the `init` request.
#[derive(Debug)]
pub struct InitChallenge {
    pub salt: Vec<u8>,
    pub b_pub: Vec<u8>,
    pub iterations: i64,
    pub cookie: String,
    pub protocol: SrpProtocol,
}

/// Whether `resp` carries every field of an `init` answer.
pub open spec fn init_fields_present(resp: PlistDict) -> bool {
    &&& data_at(resp, "s"@) is Some
    &&& data_at(resp, "B"@) is Some
    &&& int_at(resp, "i"@) is Some
    &&& str_at(resp, "c"@) is Some
    &&& str_at(resp, "sp"@) is Some
}

/// Whether a PBKDF2 iteration count from the server can be used: at least
/// one round, and no more than a `u32` holds.
pub open spec fn iterations_valid(i: i64) -> bool {
    1 <= i <= u32::MAX as i64
}

/// The first field of an `init` answer that `resp` lacks, in reading order.
pub open spec fn first_missing_init_field(resp: PlistDict) -> Seq<char> {
    if data_at(resp, "s"@) is None {
        "s"@
    } else if data_at(resp, "B"@) is None {
        "B"@
    } else if int_at(resp, "i"@) is None {
        "i"@
    } else if str_at(resp, "c"@) is None {
        "c"@
    } else {
        "sp"@
    }
}

/// Reads the `init` answer (the `Response` dictionary).
pub fn parse_init_response(resp: &PlistDict) -> (r: Result<InitChallenge, Error>)
    ensures
        grandslam_code(*resp) != 0 ==> (r matches Err(Error::AuthWithMessage(c, m))
            && c == grandslam_code(*resp) && m@ == grandslam_message(*resp)),
        grandslam_code(*resp) == 0 && !init_fields_present(*resp) ==> (r matches Err(Error::ParseProtocol(k))
            && k@ == first_missing_init_field(*resp)),
        grandslam_code(*resp) == 0 && init_fields_present(*resp) && !iterations_valid(int_at(*resp, "i"@)->0) ==> (
            r matches Err(Error::ParseProtocol(k)) && k@ == "i"@),
        grandslam_code(*resp) == 0 && init_fields_present(*resp) && iterations_valid(int_at(*resp, "i"@)->0)
            ==> match protocol_of(str_at(*resp, "sp"@)->0) {
            Some(p) => r matches Ok(ch) && ch.protocol == p && ch.salt@ == data_at(*resp, "s"@)->0
                && ch.b_pub@ == data_at(*resp, "B"@)->0 && ch.iterations == int_at(*resp, "i"@)->0
                && iterations_valid(ch.iterations)
                && ch.cookie@ == str_at(*resp, "c"@)->0,
            None => r matches Err(Error::UnsupportedProtocol(sp)) && sp@ == str_at(*resp, "sp"@)->0,
        },
{
    check_grandslam_error(resp)?;
    let salt = resp.get_data("s")?;
    let b_pub = resp.get_data("B")?;
    let iterations = resp.get_signed_integer("i")?;
    let cookie = resp.get_str("c")?;
    let sp = resp.get_str("sp")?;
    if iterations < 1 || iterations > u32::MAX as i64 {
        return Err(Error::ParseProtocol(owned("i")));
    }
    proof {
        reveal_strlit("s2k");
        reveal_strlit("s2k_fo");
    }
    let protocol = if str_eq(sp.as_str(), "s2k") {
        SrpProtocol::S2k
    } else if str_eq(sp.as_str(), "s2k_fo") {
        SrpProtocol::S2kFo
    } else {
        return Err(Error::UnsupportedProtocol(sp.clone()));
    };
    Ok(InitChallenge {
        salt: copy_bytes(salt.as_slice()),
        b_pub: copy_bytes(b_pub.as_slice()),
        iterations,
        cookie: cookie.clone(),
        protocol,
    })
}

/// The client's ephemeral secret and public value for one login.
pub struct SrpStart {
    pub a: Vec<u8>,
    pub a_pub: Vec<u8>,
}

impl SrpStart {
    /// Computes the public ephemeral of the secret `a`.
    pub fn new(a: Vec<u8>) -> (r: SrpStart)
        ensures
            r.a == a,
            r.wf(),
    {
        let a_pub = srp_public_ephemeral(a.as_slice());
        SrpStart { a, a_pub }
    }

    /// A login with a fresh 32-byte ephemeral secret.
    pub fn generate() -> (r: SrpStart)
        ensures
            r.a@.len() == 32,
            r.wf(),
    {
        SrpStart::new(crate::crypto::random_bytes(32))
    }

    /// Whether `a_pub` is the public value of `a`.
    pub open spec fn wf(self) -> bool {
        self.a_pub@ == srp_public_of(self.a@)
    }

    /// The `init` request of this login.
    pub fn init_request(&self, email: &str, anisette: &AnisetteData) -> (r: PlistDict)
        requires
            self.wf(),
        ensures
            r.entries@[1].1 matches PlistValue::Dict(b) && is_envelope(r, b)
                && (b.entries@[1].1 matches PlistValue::Dict(cpd)
                && crate::anisette::is_string_dict(cpd, crate::anisette::cpd_of(*anisette))
                && is_init_body(b, srp_public_of(self.a@), cpd, email@)),
    {
        let cpd = anisette.get_client_provided_data();
        let req = InitRequest::new(copy_bytes(self.a_pub.as_slice()), cpd, email);
        req.to_plist()
    }
}

/// An SRP exchange after the server's challenge: everything the `complete`
/// step and the check of the server's proof need.
#[derive(Debug)]
pub struct SrpSession {
    pub a: Vec<u8>,
    pub username: Vec<u8>,
    pub password_key: Vec<u8>,
    pub salt: Vec<u8>,
    pub b_pub: Vec<u8>,
    pub cookie: String,
    /// The client proof `M1`.
    pub proof: Vec<u8>,
    /// The session key `K`.
    pub key: Vec<u8>,
}

impl SrpSession {
    pub open spec fn reply(self) -> Option<(Seq<u8>, Seq<u8>)> {
        srp_reply_of(self.a@, self.username@, self.password_key@, self.salt@, self.b_pub@)
    }

    /// Whether the proof and key are those of the exchange's inputs.
    pub open spec fn wf(self) -> bool {
        self.reply() matches Some(t) && self.proof@ == t.0 && self.key@ == t.1
    }

    /// Derives the password and processes the server's challenge.
    pub fn start(a: &[u8], email: &str, password: &str, challenge: InitChallenge) -> (r: Result<SrpSession, Error>)
        ensures
            match srp_reply_of(a@, encode_utf8(email@),
                derived_password(challenge.protocol, password@, challenge.salt@, challenge.iterations),
                challenge.salt@, challenge.b_pub@) {
                Some(t) => r matches Ok(s) && s.wf() && s.a@ == a@ && s.username@ == encode_utf8(email@)
                    && s.password_key@ == derived_password(challenge.protocol, password@, challenge.salt@, challenge.iterations)
                    && s.salt@ == challenge.salt@ && s.b_pub@ == challenge.b_pub@ && s.cookie == challenge.cookie
                    && s.proof@ == t.0 && s.key@ == t.1,
                None => r matches Err(Error::SrpReplyRejected),
            },
    {
        let InitChallenge { salt, b_pub, iterations, cookie, protocol } = challenge;
        let password_key = derive_password(password, protocol, salt.as_slice(), iterations);
        let username = copy_bytes(email.as_bytes());
        match srp_process_reply(a, username.as_slice(), password_key.as_slice(), salt.as_slice(), b_pub.as_slice()) {
            Some((proof, key)) => Ok(SrpSession {
                a: copy_bytes(a),
                username,
                password_key,
                salt,
                b_pub,
                cookie,
                proof,
                key,
            }),
            None => Err(Error::SrpReplyRejected),
        }
    }

    /// The `complete` request of this exchange.
    pub fn complete_request(&self, email: &str, anisette: &AnisetteData) -> (r: PlistDict)
        ensures
            r.entries@[1].1 matches PlistValue::Dict(b) && is_envelope(r, b)
                && (b.entries@[2].1 matches PlistValue::Dict(cpd)
                && crate::anisette::is_string_dict(cpd, crate::anisette::cpd_of(*anisette))
                && is_challenge_body(b, self.proof@, self.cookie@, cpd, email@)),
    {
        let cpd = anisette.get_client_provided_data();
        let req = ChallengeRequest::new(copy_bytes(self.proof.as_slice()), cpd, self.cookie.as_str(), email);
        req.to_plist()
    }

    /// Checks the server's answer to `complete`: its proof, then the session
    /// private data, then its `Status`.
    pub fn finish(&self, resp: &PlistDict) -> (r: Result<LoginOutcome, Error>)
        requires
            self.wf(),
        ensures
            r is Ok <==> {
                &&& grandslam_code(*resp) == 0
                &&& data_at(*resp, "M2"@) is Some
                &&& data_at(*resp, "M2"@)->0 == srp_server_proof_of(self.a@, self.username@,
                    self.password_key@, self.salt@, self.b_pub@)
                &&& data_at(*resp, "spd"@) is Some
                &&& aes256_cbc_decrypt_of(spd_key_of(self.key@), spd_iv_of(self.key@),
                    data_at(*resp, "spd"@)->0) is Some
                &&& dict_at(*resp, "Status"@) is Some
            },
            grandslam_code(*resp) != 0 ==> (r matches Err(Error::AuthWithMessage(c, m))
                && c == grandslam_code(*resp) && m@ == grandslam_message(*resp)),
            grandslam_code(*resp) == 0 && data_at(*resp, "M2"@) is Some
                && data_at(*resp, "M2"@)->0 != srp_server_proof_of(self.a@, self.username@,
                    self.password_key@, self.salt@, self.b_pub@) ==> r matches Err(Error::NegotiationFailed),
            grandslam_code(*resp) == 0 && data_at(*resp, "M2"@) is None ==> (r matches Err(Error::ParseProtocol(k))
                && k@ == "M2"@),
            r is Err && data_at(*resp, "M2"@) == Some(srp_server_proof_of(self.a@, self.username@,
                self.password_key@, self.salt@, self.b_pub@)) ==> (r matches Err(e) && match e {
                Error::AuthWithMessage(_, _) => grandslam_code(*resp) != 0,
                Error::ParseProtocol(k) => (k@ == "spd"@ && data_at(*resp, "spd"@) is None)
                    || (k@ == "Status"@ && dict_at(*resp, "Status"@) is None),
                Error::Decryption(_) => data_at(*resp, "spd"@) is Some && aes256_cbc_decrypt_of(
                    spd_key_of(self.key@), spd_iv_of(self.key@), data_at(*resp, "spd"@)->0) is None,
                _ => false,
            }),
            r matches Ok(o) ==> o.spd_plist@ == aes256_cbc_decrypt_of(spd_key_of(self.key@),
                spd_iv_of(self.key@), data_at(*resp, "spd"@)->0)->0
                && state_for_status(o.state, dict_at(*resp, "Status"@)->0),
    {
        check_grandslam_error(resp)?;
        let m2 = resp.get_data("M2")?;
        if !srp_verify_server(self.a.as_slice(), self.username.as_slice(), self.password_key.as_slice(),
            self.salt.as_slice(), self.b_pub.as_slice(), m2.as_slice()) {
            return Err(Error::NegotiationFailed);
        }
        let spd = resp.get_data("spd")?;
        let plain = decrypt_cbc(self.key.as_slice(), spd.as_slice())?;
        let status = resp.get_dict("Status")?;
        let state = login_state_for(status);
        Ok(LoginOutcome { spd_plist: plain, state })
    }
}

/// The state that a `Status` dictionary asks for.
pub open spec fn state_for_status(st: LoginState, status: PlistDict) -> bool {
    match str_at(status, "au"@) {
        Some(au) => if au == "trustedDeviceSecondaryAuth"@ {
            st is NeedsDevice2FA
        } else if au == "secondaryAuth"@ {
            st is NeedsSMS2FA
        } else if au == "repair"@ {
            st is LoggedIn
        } else {
            st matches LoginState::NeedsExtraStep(s) && s@ == au
        },
        None => st is LoggedIn,
    }
}

/// Interprets the `au` value of a `Status` dictionary.
pub fn login_state_for(status: &PlistDict) -> (r: LoginState)
    ensures
        state_for_status(r, *status),
{
    match status.get_str("au") {
        Ok(au) => {
            if str_eq(au.as_str(), "trustedDeviceSecondaryAuth") {
                LoginState::NeedsDevice2FA
            } else if str_eq(au.as_str(), "secondaryAuth") {
                LoginState::NeedsSMS2FA
            } else if str_eq(au.as_str(), "repair") {
                LoginState::LoggedIn
            } else {
                LoginState::NeedsExtraStep(au.clone())
            }
        },
        Err(_) => LoginState::LoggedIn,
    }
}

/// A completed SRP exchange: the decrypted session private data (an XML
/// property list) and the state the server asked for.
#[derive(Debug)]
pub struct LoginOutcome {
    pub spd_plist: Vec<u8>,
    pub state: LoginState,
}

} // verus!
