use vstd::prelude::*;

use crate::anisette::{AnisetteClientInfo, pair, pairs_view};
use crate::error::Error;
use crate::plist::{PlistDict, PlistValue, dict_at, int_at, str_at};
use crate::text::owned;

verus! {

/// The URL-bag lookup endpoint.
pub const URL_BAG: &'static str = "https://gsa.apple.com/grandslam/GsService2/lookup";

/// The dictionary whose `ec` / `em` classify a response: its `Status`
/// sub-dictionary if it has one, else the dictionary itself.
pub open spec fn status_of(d: PlistDict) -> PlistDict {
    match dict_at(d, "Status"@) {
        Some(s) => s,
        None => d,
    }
}

/// The GrandSlam error code of a response (0 when absent).
pub open spec fn grandslam_code(d: PlistDict) -> i64 {
    match int_at(status_of(d), "ec"@) {
        Some(e) => e,
        None => 0,
    }
}

/// The GrandSlam error message of a response.
pub open spec fn grandslam_message(d: PlistDict) -> Seq<char> {
    match str_at(status_of(d), "em"@) {
        Some(m) => m,
        None => "Unknown error"@,
    }
}

/// Classifies a GrandSlam response: a nonzero `ec` is an application error.
pub fn check_grandslam_error(d: &PlistDict) -> (r: Result<(), Error>)
    ensures
        grandslam_code(*d) == 0 ==> r is Ok,
        grandslam_code(*d) != 0 ==> (r matches Err(Error::AuthWithMessage(c, m))
            && c == grandslam_code(*d) && m@ == grandslam_message(*d)),
{
    let status = match d.get("Status") {
        Some(PlistValue::Dict(s)) => s,
        _ => d,
    };
    let ec = match status.get_signed_integer("ec") {
        Ok(e) => e,
        Err(_) => 0,
    };
    if ec != 0 {
        let em = match status.get_str("em") {
            Ok(m) => m.clone(),
            Err(_) => owned("Unknown error"),
        };
        return Err(Error::AuthWithMessage(ec, em));
    }
    Ok(())
}

/// The `Response` dictionary of a GrandSlam reply.
pub fn response_of(d: &PlistDict) -> (r: Result<&PlistDict, Error>)
    ensures
        match dict_at(*d, "Response"@) {
            Some(x) => r matches Ok(v) && *v == x,
            None => r matches Err(Error::ParseProtocol(k)) && k@ == "Response"@,
        },
{
    d.get_dict("Response")
}

/// The `Response` dictionary of a GrandSlam reply, taken out of it.
pub fn into_response(d: PlistDict) -> (r: Result<PlistDict, Error>)
    ensures
        match dict_at(d, "Response"@) {
            Some(x) => r matches Ok(y) && y == x,
            None => r matches Err(Error::ParseProtocol(k)) && k@ == "Response"@,
        },
{
    crate::plist::take_dict(d, "Response")
}

/// The URL bag: endpoint names to URLs.
#[derive(Debug)]
pub struct UrlBag {
    pub urls: PlistDict,
}

impl UrlBag {
    /// Takes the `urls` dictionary of a lookup reply.
    pub fn from_lookup(d: PlistDict) -> (r: Result<UrlBag, Error>)
        ensures
            match dict_at(d, "urls"@) {
                Some(u) => r matches Ok(b) && b.urls == u,
                None => r matches Err(Error::ParseProtocol(k)) && k@ == "urls"@,
            },
    {
        let urls = crate::plist::take_dict(d, "urls")?;
        Ok(UrlBag { urls })
    }

    pub fn get_url(&self, key: &str) -> (r: Result<String, Error>)
        ensures
            match str_at(self.urls, key@) {
                Some(u) => r matches Ok(v) && v@ == u,
                None => r matches Err(Error::ParseProtocol(k)) && k@ == key@,
            },
    {
        let u = self.urls.get_str(key)?;
        Ok(u.clone())
    }
}

/// The fixed header set of GrandSlam requests; the content-type pair is left
/// out for the SMS endpoints.
pub open spec fn base_headers_of(info: AnisetteClientInfo, sms: bool) -> Seq<(Seq<char>, Seq<char>)> {
    let content: Seq<(Seq<char>, Seq<char>)> = if sms {
        seq![]
    } else {
        seq![("Content-Type"@, "text/x-xml-plist"@), ("Accept"@, "text/x-xml-plist"@)]
    };
    content + seq![
        ("X-Mme-Client-Info"@, info.client_info@),
        ("User-Agent"@, info.user_agent@),
        ("X-Xcode-Version"@, "14.2 (14C18)"@),
        ("X-Apple-App-Info"@, "com.apple.gs.xcode.auth"@),
    ]
}

pub fn base_headers(info: &AnisetteClientInfo, sms: bool) -> (r: Vec<(String, String)>)
    ensures
        pairs_view(r@) == base_headers_of(*info, sms),
{
    let mut r: Vec<(String, String)> = Vec::new();
    if !sms {
        r.push(pair("Content-Type", "text/x-xml-plist"));
        r.push(pair("Accept", "text/x-xml-plist"));
    }
    r.push(pair("X-Mme-Client-Info", info.client_info.as_str()));
    r.push(pair("User-Agent", info.user_agent.as_str()));
    r.push(pair("X-Xcode-Version", "14.2 (14C18)"));
    r.push(pair("X-Apple-App-Info", "com.apple.gs.xcode.auth"));
    assert(pairs_view(r@) =~= base_headers_of(*info, sms));
    r
}

} // verus!
