use vstd::prelude::*;
use vstd::string::*;

verus! {

/// The device family a developer-portal endpoint addresses.
#[derive(Debug, Clone, Copy, PartialEq, Eq, Structural)]
pub enum DeveloperDeviceType {
    Any,
    Ios,
    Tvos,
    Watchos,
}

/// Path segment of a device family, as a character sequence.
pub open spec fn segment_of(t: DeveloperDeviceType) -> Seq<char> {
    match t {
        DeveloperDeviceType::Any => seq![],
        DeveloperDeviceType::Ios => seq!['i', 'o', 's', '/'],
        DeveloperDeviceType::Tvos => seq!['t', 'v', 'o', 's', '/'],
        DeveloperDeviceType::Watchos => seq!['w', 'a', 't', 'c', 'h', 'o', 's', '/'],
    }
}

pub open spec fn dev_url_prefix() -> Seq<char> {
    "https://developerservices2.apple.com/services/QH65B2/"@
}

pub open spec fn dev_url_suffix() -> Seq<char> {
    ".action?clientId=XABBG36SBA"@
}

/// The developer-services URL of `endpoint` for a device family (iOS when none is given).
pub open spec fn dev_url_of(endpoint: Seq<char>, device_type: Option<DeveloperDeviceType>) -> Seq<char> {
    let t = match device_type {
        Some(t) => t,
        None => DeveloperDeviceType::Ios,
    };
    dev_url_prefix() + segment_of(t) + endpoint + dev_url_suffix()
}

impl DeveloperDeviceType {
    pub fn url_segment(&self) -> (r: &'static str)
        ensures
            r@ == segment_of(*self),
    {
        proof {
            reveal_strlit("");
            reveal_strlit("ios/");
            reveal_strlit("tvos/");
            reveal_strlit("watchos/");
        }
        match self {
            DeveloperDeviceType::Any => "",
            DeveloperDeviceType::Ios => "ios/",
            DeveloperDeviceType::Tvos => "tvos/",
            DeveloperDeviceType::Watchos => "watchos/",
        }
    }
}

pub fn dev_url(endpoint: &str, device_type: Option<DeveloperDeviceType>) -> (r: String)
    ensures
        r@ == dev_url_of(endpoint@, device_type),
{
    let t = match device_type {
        Some(t) => t,
        None => DeveloperDeviceType::Ios,
    };
    let mut url = String::from_str("https://developerservices2.apple.com/services/QH65B2/");
    url.append(t.url_segment());
    url.append(endpoint);
    url.append(".action?clientId=XABBG36SBA");
    url
}

} // verus!
