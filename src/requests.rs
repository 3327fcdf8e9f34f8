use vstd::prelude::*;

use crate::plist::{PlistDict, PlistValue, entry_is, push_str, push_value, str_entry_is};
use crate::text::owned;

verus! {

/// The protocol version every GrandSlam request declares.
pub const PROTOCOL_VERSION: &'static str = "1.0.1";

/// `{Header: {Version: "1.0.1"}, Request: body}`.
pub open spec fn is_envelope(d: PlistDict, body: PlistDict) -> bool {
    &&& d.entries@.len() == 2
    &&& d.entries@[0].0@ == "Header"@
    &&& d.entries@[0].1 matches PlistValue::Dict(h) && h.entries@.len() == 1
        && str_entry_is(h, 0, "Version"@, "1.0.1"@)
    &&& entry_is(d, 1, "Request"@, PlistValue::Dict(body))
}

/// Entry `i` of `d` binds `k` to data whose bytes are `b`.
pub open spec fn data_entry_is(d: PlistDict, i: int, k: Seq<char>, b: Seq<u8>) -> bool {
    &&& 0 <= i < d.entries@.len()
    &&& d.entries@[i].0@ == k
    &&& d.entries@[i].1 matches PlistValue::Data(x) && x@ == b
}

/// Entry `i` of `d` binds `k` to an array of strings whose characters are `items`.
pub open spec fn str_array_entry_is(d: PlistDict, i: int, k: Seq<char>, items: Seq<Seq<char>>) -> bool {
    &&& 0 <= i < d.entries@.len()
    &&& d.entries@[i].0@ == k
    &&& d.entries@[i].1 matches PlistValue::Array(v) && v@.len() == items.len() && forall|j: int|
        0 <= j < items.len() ==> (#[trigger] v@[j] matches PlistValue::Str(s) && s@ == items[j])
}

fn str_array(items: Vec<String>) -> (r: PlistValue)
    ensures
        r matches PlistValue::Array(v) && v@.len() == items@.len() && forall|j: int|
            0 <= j < items@.len() ==> (#[trigger] v@[j] matches PlistValue::Str(s) && s == items@[j]),
{
    let mut out: Vec<PlistValue> = Vec::new();
    let mut i: usize = 0;
    while i < items.len()
        invariant
            i <= items@.len(),
            out@.len() == i,
            forall|j: int| 0 <= j < i ==> (#[trigger] out@[j] matches PlistValue::Str(s) && s == items@[j]),
        decreases items@.len() - i,
    {
        out.push(PlistValue::Str(items[i].clone()));
        i = i + 1;
    }
    PlistValue::Array(out)
}

/// The `Header` of a GrandSlam request.
#[derive(Debug, Clone)]
pub struct RequestHeader {
    pub version: String,
}

impl RequestHeader {
    pub fn new() -> (r: RequestHeader)
        ensures
            r.version@ == "1.0.1"@,
    {
        RequestHeader { version: owned(PROTOCOL_VERSION) }
    }

    pub fn to_plist(self) -> (r: PlistDict)
        ensures
            r.entries@.len() == 1,
            str_entry_is(r, 0, "Version"@, self.version@),
    {
        let mut d = PlistDict::new();
        push_str(&mut d, "Version", self.version.as_str());
        d
    }
}

fn envelope(header: RequestHeader, body: PlistDict) -> (r: PlistDict)
    requires
        header.version@ == "1.0.1"@,
    ensures
        is_envelope(r, body),
{
    let mut d = PlistDict::new();
    push_value(&mut d, "Header", PlistValue::Dict(header.to_plist()));
    push_value(&mut d, "Request", PlistValue::Dict(body));
    d
}

/// The body of the SRP `init` request.
#[derive(Debug)]
pub struct InitRequestBody {
    pub a_pub: Vec<u8>,
    pub cpd: PlistDict,
    pub operation: String,
    pub ps: Vec<String>,
    pub username: String,
}

/// `{A2k, cpd, o: "init", ps: ["s2k", "s2k_fo"], u}`.
pub open spec fn is_init_body(b: PlistDict, a_pub: Seq<u8>, cpd: PlistDict, username: Seq<char>) -> bool {
    &&& b.entries@.len() == 5
    &&& data_entry_is(b, 0, "A2k"@, a_pub)
    &&& entry_is(b, 1, "cpd"@, PlistValue::Dict(cpd))
    &&& str_entry_is(b, 2, "o"@, "init"@)
    &&& str_array_entry_is(b, 3, "ps"@, seq!["s2k"@, "s2k_fo"@])
    &&& str_entry_is(b, 4, "u"@, username)
}

/// The SRP `init` request.
#[derive(Debug)]
pub struct InitRequest {
    pub header: RequestHeader,
    pub request: InitRequestBody,
}

impl InitRequest {
    pub fn new(a_pub: Vec<u8>, cpd: PlistDict, username: &str) -> (r: InitRequest)
        ensures
            r.header.version@ == "1.0.1"@,
            r.request.a_pub == a_pub,
            r.request.cpd == cpd,
            r.request.operation@ == "init"@,
            r.request.ps@.len() == 2,
            r.request.ps@[0]@ == "s2k"@,
            r.request.ps@[1]@ == "s2k_fo"@,
            r.request.username@ == username@,
    {
        let mut ps: Vec<String> = Vec::new();
        ps.push(owned("s2k"));
        ps.push(owned("s2k_fo"));
        InitRequest {
            header: RequestHeader::new(),
            request: InitRequestBody { a_pub, cpd, operation: owned("init"), ps, username: owned(username) },
        }
    }

    pub fn to_plist(self) -> (r: PlistDict)
        requires
            self.header.version@ == "1.0.1"@,
            self.request.operation@ == "init"@,
            self.request.ps@.len() == 2,
            self.request.ps@[0]@ == "s2k"@,
            self.request.ps@[1]@ == "s2k_fo"@,
        ensures
            r.entries@.len() == 2,
            r.entries@[1].1 matches PlistValue::Dict(b) && is_envelope(r, b)
                && is_init_body(b, self.request.a_pub@, self.request.cpd, self.request.username@),
    {
        let InitRequest { header, request } = self;
        let InitRequestBody { a_pub, cpd, operation, ps, username } = request;
        let ghost a_view = a_pub@;
        let ghost ps_view = ps@;
        let mut b = PlistDict::new();
        push_value(&mut b, "A2k", PlistValue::Data(a_pub));
        push_value(&mut b, "cpd", PlistValue::Dict(cpd));
        push_str(&mut b, "o", operation.as_str());
        push_value(&mut b, "ps", str_array(ps));
        push_str(&mut b, "u", username.as_str());
        assert(str_array_entry_is(b, 3, "ps"@, seq!["s2k"@, "s2k_fo"@])) by {
            assert(ps_view[0]@ == "s2k"@);
        }
        envelope(header, b)
    }
}

/// The body of the SRP `complete` request.
#[derive(Debug)]
pub struct ChallengeRequestBody {
    pub m: Vec<u8>,
    pub cpd: PlistDict,
    pub c: String,
    pub operation: String,
    pub username: String,
}

/// `{M1, c, cpd, o: "complete", u}`.
pub open spec fn is_challenge_body(b: PlistDict, m: Seq<u8>, c: Seq<char>, cpd: PlistDict, username: Seq<char>) -> bool {
    &&& b.entries@.len() == 5
    &&& data_entry_is(b, 0, "M1"@, m)
    &&& str_entry_is(b, 1, "c"@, c)
    &&& entry_is(b, 2, "cpd"@, PlistValue::Dict(cpd))
    &&& str_entry_is(b, 3, "o"@, "complete"@)
    &&& str_entry_is(b, 4, "u"@, username)
}

/// The SRP `complete` request.
#[derive(Debug)]
pub struct ChallengeRequest {
    pub header: RequestHeader,
    pub request: ChallengeRequestBody,
}

impl ChallengeRequest {
    pub fn new(m: Vec<u8>, cpd: PlistDict, c: &str, username: &str) -> (r: ChallengeRequest)
        ensures
            r.header.version@ == "1.0.1"@,
            r.request.m == m,
            r.request.cpd == cpd,
            r.request.c@ == c@,
            r.request.operation@ == "complete"@,
            r.request.username@ == username@,
    {
        ChallengeRequest {
            header: RequestHeader::new(),
            request: ChallengeRequestBody {
                m,
                cpd,
                c: owned(c),
                operation: owned("complete"),
                username: owned(username),
            },
        }
    }

    pub fn to_plist(self) -> (r: PlistDict)
        requires
            self.header.version@ == "1.0.1"@,
            self.request.operation@ == "complete"@,
        ensures
            r.entries@.len() == 2,
            r.entries@[1].1 matches PlistValue::Dict(b) && is_envelope(r, b)
                && is_challenge_body(b, self.request.m@, self.request.c@, self.request.cpd, self.request.username@),
    {
        let ChallengeRequest { header, request } = self;
        let ChallengeRequestBody { m, cpd, c, operation, username } = request;
        let mut b = PlistDict::new();
        push_value(&mut b, "M1", PlistValue::Data(m));
        push_str(&mut b, "c", c.as_str());
        push_value(&mut b, "cpd", PlistValue::Dict(cpd));
        push_str(&mut b, "o", operation.as_str());
        push_str(&mut b, "u", username.as_str());
        envelope(header, b)
    }
}

/// The body of the `apptokens` request.
#[derive(Debug)]
pub struct AuthTokenRequestBody {
    pub app: Vec<String>,
    pub c: Vec<u8>,
    pub cpd: PlistDict,
    pub operation: String,
    pub t: String,
    pub u: String,
    pub checksum: Vec<u8>,
}

/// `{app: [app], c, checksum, cpd, o: "apptokens", u, t}`.
pub open spec fn is_token_body(
    b: PlistDict,
    app: Seq<char>,
    c: Seq<u8>,
    checksum: Seq<u8>,
    cpd: PlistDict,
    u: Seq<char>,
    t: Seq<char>,
) -> bool {
    &&& b.entries@.len() == 7
    &&& str_array_entry_is(b, 0, "app"@, seq![app])
    &&& data_entry_is(b, 1, "c"@, c)
    &&& data_entry_is(b, 2, "checksum"@, checksum)
    &&& entry_is(b, 3, "cpd"@, PlistValue::Dict(cpd))
    &&& str_entry_is(b, 4, "o"@, "apptokens"@)
    &&& str_entry_is(b, 5, "u"@, u)
    &&& str_entry_is(b, 6, "t"@, t)
}

/// The `apptokens` request.
#[derive(Debug)]
pub struct AuthTokenRequest {
    pub header: RequestHeader,
    pub request: AuthTokenRequestBody,
}

impl AuthTokenRequest {
    pub fn new(app: &str, c: Vec<u8>, checksum: Vec<u8>, cpd: PlistDict, u: &str, t: &str) -> (r: AuthTokenRequest)
        ensures
            r.header.version@ == "1.0.1"@,
            r.request.app@.len() == 1,
            r.request.app@[0]@ == app@,
            r.request.c == c,
            r.request.checksum == checksum,
            r.request.cpd == cpd,
            r.request.operation@ == "apptokens"@,
            r.request.u@ == u@,
            r.request.t@ == t@,
    {
        let mut apps: Vec<String> = Vec::new();
        apps.push(owned(app));
        AuthTokenRequest {
            header: RequestHeader::new(),
            request: AuthTokenRequestBody {
                app: apps,
                c,
                cpd,
                operation: owned("apptokens"),
                t: owned(t),
                u: owned(u),
                checksum,
            },
        }
    }

    pub fn to_plist(self) -> (r: PlistDict)
        requires
            self.header.version@ == "1.0.1"@,
            self.request.operation@ == "apptokens"@,
            self.request.app@.len() == 1,
        ensures
            r.entries@.len() == 2,
            r.entries@[1].1 matches PlistValue::Dict(b) && is_envelope(r, b)
                && is_token_body(b, self.request.app@[0]@, self.request.c@, self.request.checksum@,
                    self.request.cpd, self.request.u@, self.request.t@),
    {
        let AuthTokenRequest { header, request } = self;
        let AuthTokenRequestBody { app, c, cpd, operation, t, u, checksum } = request;
        let ghost app_view = app@;
        let mut b = PlistDict::new();
        push_value(&mut b, "app", str_array(app));
        push_value(&mut b, "c", PlistValue::Data(c));
        push_value(&mut b, "checksum", PlistValue::Data(checksum));
        push_value(&mut b, "cpd", PlistValue::Dict(cpd));
        push_str(&mut b, "o", operation.as_str());
        push_str(&mut b, "u", u.as_str());
        push_str(&mut b, "t", t.as_str());
        assert(str_array_entry_is(b, 0, "app"@, seq![app_view[0]@]));
        envelope(header, b)
    }
}

/// `{code}` of an SMS verification.
#[derive(Debug, Clone)]
pub struct VerifyCode {
    pub code: String,
}

/// `{id}` of a trusted phone number.
#[derive(Debug, Clone, Copy)]
pub struct PhoneNumber {
    pub id: u32,
}

/// The JSON body of an SMS code submission.
#[derive(Debug, Clone)]
pub struct VerifyBody {
    pub phone_number: PhoneNumber,
    pub mode: String,
    pub security_code: Option<VerifyCode>,
}

impl VerifyBody {
    /// `{securityCode: {code}, phoneNumber: {id: 1}, mode: "sms"}`.
    pub fn sms(code: String) -> (r: VerifyBody)
        ensures
            r.phone_number.id == 1,
            r.mode@ == "sms"@,
            r.security_code matches Some(c) && c.code == code,
    {
        VerifyBody { phone_number: PhoneNumber { id: 1 }, mode: owned("sms"), security_code: Some(VerifyCode { code }) }
    }
}

/// A trusted phone number as the authentication extras list it.
#[derive(Debug, Clone)]
pub struct TrustedPhoneNumber {
    pub number_with_dial_code: String,
    pub last_two_digits: String,
    pub push_mode: String,
    pub id: u32,
}

} // verus!
