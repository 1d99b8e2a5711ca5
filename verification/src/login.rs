//! Network-status classification and the portal login exchange.
//!
//! Everything here is pure with respect to the HTTP responses it is shown:
//! the functions take status codes and bodies (or their absence, for a
//! transport failure) and decide.  Sending and receiving live outside the
//! library.

use vstd::prelude::*;
use vstd::string::*;
use crate::bind::SmartBindToInterfaceError;
use crate::credential::{account_of, Credential};
use crate::password::{Password, PasswordError};
use crate::portal_text::{ap_ip_extracted, ap_ip_present, contains_authentication_marker,
    extract_ap_ip, marker_present};
use crate::protection::{is_machine_key, unprotect_spec};
use crate::text::str_eq;
use vstd::slice::slice_subrange;
use vstd::utf8::encode_utf8;

verus! {

/// Every outbound HTTP call's deadline, in seconds.
pub const HTTP_TIMEOUT_SECS: u64 = 30;

/// Parameters scraped from the captive portal's info page, needed by the
/// login request.  Derived per probe cycle, never persisted.
#[derive(Debug)]
pub struct ApInfo {
    pub user_ip: String,
}

/// What a probe of the network found.
#[derive(Debug)]
pub enum NetworkStatus {
    /// The open internet answered.
    Connected,
    /// The campus portal intercepted the probe and its info page yielded
    /// the parameters for a login.
    AuthenticationRequired(ApInfo),
    /// Something intercepted the probe, but not recognizably the campus
    /// portal, or its parameters could not be scraped.
    AuthenticationUnknown,
    /// No usable answer at all.
    Disconnected,
}

/// Why a login attempt failed.
#[derive(Debug)]
pub enum WifiLoginError {
    /// The request could not be sent or answered; the message is the
    /// transport's.
    HttpRequestFailed(String),
    /// The portal neither accepted the login nor left the network open.
    AuthenticationFailed(),
    /// The portal rejects logins for the nightly blackout.
    OffHours(),
    /// The portal rejected the login, with its own reason.
    ServerRejected(String),
    /// The stored password could not be recovered.
    PasswordError(PasswordError),
    /// The client could not be bound to the configured interface.
    BindToInterfaceError(SmartBindToInterfaceError),
}

/// The public connectivity-check pages, rotated to spread load.
pub open spec fn connectivity_check_urls() -> Seq<Seq<char>> {
    seq![
        "http://connect.rom.miui.com/generate_204"@,
        "http://connectivitycheck.platform.hicloud.com/generate_204"@,
        "http://wifi.vivo.com.cn/generate_204"@,
    ]
}

/// The next connectivity-check page, round-robin over a caller-held
/// counter, which advances by one (wrapping) per call.
pub fn random_url_for_connectivity_check_204(counter: &mut u64) -> (r: &'static str)
    ensures
        r@ == connectivity_check_urls()[(*old(counter) % 3) as int],
        *final(counter) == if *old(counter) == u64::MAX {
            0u64
        } else {
            (*old(counter) + 1) as u64
        },
{
    let idx = *counter % 3;
    if *counter == u64::MAX {
        *counter = 0;
    } else {
        *counter = *counter + 1;
    }
    if idx == 0 {
        "http://connect.rom.miui.com/generate_204"
    } else if idx == 1 {
        "http://connectivitycheck.platform.hicloud.com/generate_204"
    } else {
        "http://wifi.vivo.com.cn/generate_204"
    }
}

/// The captive portal's info page, scraped for [`ApInfo`].
pub fn ap_portal_url() -> (r: &'static str)
    ensures
        r@ == "https://p.njupt.edu.cn/a79.htm"@,
{
    "https://p.njupt.edu.cn/a79.htm"
}

/// The portal's login endpoint.
pub fn login_endpoint_url() -> (r: &'static str)
    ensures
        r@ == "https://p.njupt.edu.cn:802/eportal/portal/login"@,
{
    "https://p.njupt.edu.cn:802/eportal/portal/login"
}

/// Classification of a connectivity-check answer that asks for no
/// info-page fetch: every case but an HTTP 200 carrying the portal's
/// marker.
pub open spec fn spec_probe_step(status: u16, body: Seq<char>) -> NetworkStatus
    recommends
        status != 200 || !marker_present(body),
{
    if status == 204 {
        NetworkStatus::Connected
    } else if status == 200 {
        NetworkStatus::AuthenticationUnknown
    } else if status == 302 || status == 307 {
        NetworkStatus::AuthenticationUnknown
    } else {
        NetworkStatus::Disconnected
    }
}

/// The parameters the portal's info page yields, when it answered 200 and
/// carries the IP assignment.
pub fn ap_info_from_portal_response(response: Option<(u16, &str)>) -> (r: Option<ApInfo>)
    ensures
        response is None ==> r is None,
        response matches Some(p) ==> if p.0 == 200 {
            &&& (r is Some) == ap_ip_present(p.1@)
            &&& (r matches Some(ap) ==> ap_ip_extracted(p.1@, ap.user_ip@))
        } else {
            r is None
        },
{
    match response {
        None => None,
        Some((status, body)) => {
            if status != 200 {
                return None;
            }
            match extract_ap_ip(body) {
                Some(user_ip) => Some(ApInfo { user_ip }),
                None => None,
            }
        },
    }
}

/// The network status that a probe cycle concludes, as a pure function of
/// the two responses it observed: the connectivity-check answer, and — only
/// consulted when that answer is 200 with the portal's marker — the info
/// page's answer.  `None` stands for a transport failure of that request.
pub fn network_status_from_responses(
    first: Option<(u16, &str)>,
    portal: Option<(u16, &str)>,
) -> (r: NetworkStatus)
    ensures
        first is None ==> r is Disconnected,
        first matches Some(f) ==> {
            if f.0 == 200 && marker_present(f.1@) {
                match portal {
                    Option::Some(p) => {
                        if p.0 == 200 && ap_ip_present(p.1@) {
                            r matches NetworkStatus::AuthenticationRequired(ap) && ap_ip_extracted(
                                p.1@,
                                ap.user_ip@,
                            )
                        } else {
                            r is AuthenticationUnknown
                        }
                    },
                    Option::None => r is AuthenticationUnknown,
                }
            } else {
                r == spec_probe_step(f.0, f.1@)
            }
        },
{
    let (status, body) = match first {
        None => {
            return NetworkStatus::Disconnected;
        },
        Some(f) => f,
    };
    if status == 204 {
        NetworkStatus::Connected
    } else if status == 200 {
        if contains_authentication_marker(body) {
            match ap_info_from_portal_response(portal) {
                Some(ap_info) => NetworkStatus::AuthenticationRequired(ap_info),
                None => NetworkStatus::AuthenticationUnknown,
            }
        } else {
            NetworkStatus::AuthenticationUnknown
        }
    } else if status == 302 || status == 307 {
        NetworkStatus::AuthenticationUnknown
    } else {
        NetworkStatus::Disconnected
    }
}

/// The password text a credential yields: a plain one yields its own text;
/// a machine-bound one yields whatever unprotects under this machine's key.
pub open spec fn password_yields(p: Password, s: Seq<char>) -> bool {
    match p {
        Password::Basic(b) => s == b@,
        Password::LocalMachineDataProtection { data_protection } => exists|key: Seq<u8>|
            #![auto]
            is_machine_key(key) && unprotect_spec(key, data_protection) == Some(encode_utf8(s)),
    }
}

/// The fixed-parameter set of the login request: account, recovered
/// password, and AP info, beside the protocol constants.  Fails exactly as
/// the password recovery fails; a plain password never fails.
pub fn build_login_params(credential: &Credential, ap_info: &ApInfo) -> (r: Result<
    Vec<(String, String)>,
    WifiLoginError,
>)
    ensures
        credential.spec_password() is Basic ==> r is Ok,
        r matches Err(e) ==> e is PasswordError,
        r matches Ok(params) ==> {
            &&& params@.len() == 14
            &&& params@[0].0@ == "callback"@ && params@[0].1@ == "dr1003"@
            &&& params@[1].0@ == "login_method"@ && params@[1].1@ == "1"@
            &&& params@[2].0@ == "user_account"@ && params@[2].1@ == ",0,"@ + account_of(
                credential.spec_isp(),
                credential.spec_userid(),
            )
            &&& params@[3].0@ == "user_password"@ && password_yields(
                credential.spec_password(),
                params@[3].1@,
            )
            &&& params@[4].0@ == "wlan_user_ip"@ && params@[4].1@ == ap_info.user_ip@
            &&& params@[5].0@ == "wlan_user_ipv6"@ && params@[5].1@ == ""@
            &&& params@[6].0@ == "wlan_user_mac"@ && params@[6].1@ == "000000000000"@
            &&& params@[7].0@ == "wlan_ac_ip"@ && params@[7].1@ == ""@
            &&& params@[8].0@ == "wlan_ac_name"@ && params@[8].1@ == ""@
            &&& params@[9].0@ == "sVersion"@ && params@[9].1@ == "4.1.3"@
            &&& params@[10].0@ == "terminal_type"@ && params@[10].1@ == "1"@
            &&& params@[11].0@ == "lang"@ && params@[11].1@ == "zh-cn"@
            &&& params@[12].0@ == "v"@ && params@[12].1@ == "3335"@
            &&& params@[13].0@ == "lang"@ && params@[13].1@ == "zh"@
        },
{
    let account = String::from_str(",0,").concat(credential.derive_account().as_str());
    let upass = match credential.password().get() {
        Ok(p) => p,
        Err(e) => {
            return Err(WifiLoginError::PasswordError(e));
        },
    };
    let mut params: Vec<(String, String)> = Vec::new();
    params.push((String::from_str("callback"), String::from_str("dr1003")));
    params.push((String::from_str("login_method"), String::from_str("1")));
    params.push((String::from_str("user_account"), account));
    params.push((String::from_str("user_password"), upass));
    params.push((String::from_str("wlan_user_ip"), String::from_str(ap_info.user_ip.as_str())));
    params.push((String::from_str("wlan_user_ipv6"), String::from_str("")));
    params.push((String::from_str("wlan_user_mac"), String::from_str("000000000000")));
    params.push((String::from_str("wlan_ac_ip"), String::from_str("")));
    params.push((String::from_str("wlan_ac_name"), String::from_str("")));
    params.push((String::from_str("sVersion"), String::from_str("4.1.3")));
    params.push((String::from_str("terminal_type"), String::from_str("1")));
    params.push((String::from_str("lang"), String::from_str("zh-cn")));
    params.push((String::from_str("v"), String::from_str("3335")));
    params.push((String::from_str("lang"), String::from_str("zh")));
    Ok(params)
}

/// What parsing the portal's JSON authentication result yields for given
/// bytes — the `result` integer and the `msg` text — when the bytes parse
/// as a JSON object carrying both; a function of the bytes alone.
pub uninterp spec fn json_auth_result_of(b: Seq<u8>) -> Option<(i64, Seq<char>)>;

/// Relies on `serde_json::from_slice` and `serde_json::Value`'s accessors:
/// the parse of the body as a JSON object with an integer `result` and a
/// string `msg`, a function of the bytes alone.
#[verifier::external_body]
fn parse_auth_result(b: &[u8]) -> (r: Option<(i64, String)>)
    ensures
        match r {
            Option::Some(p) => json_auth_result_of(b@) == Some((p.0, p.1@)),
            Option::None => json_auth_result_of(b@) is None,
        },
{
    let v: serde_json::Value = serde_json::from_slice(b).ok()?;
    let result = v.get("result")?.as_i64()?;
    let msg = v.get("msg")?.as_str()?.to_owned();
    Some((result, msg))
}

/// The JSON inside the JSONP wrapping `dr1003(` … `);`: the body with the
/// fixed seven-byte prefix and two-byte suffix cut off, provided anything
/// lies between them.
pub open spec fn jsonp_inner(b: Seq<u8>) -> Option<Seq<u8>> {
    if b.len() > 9 {
        Some(b.subrange(7, b.len() - 2))
    } else {
        None
    }
}

/// The server messages that announce the nightly blackout.
pub open spec fn is_off_hours_msg(m: Seq<char>) -> bool {
    ||| m == "Authentication Fail ErrCode=16"@
    ||| m == "当前时间禁止上网"@
}

/// How a login response is to be acted on.
#[derive(Debug)]
pub enum LoginAssessment {
    /// The portal accepted the login.
    Success,
    /// The portal rejects logins for the nightly blackout.
    OffHours,
    /// The portal rejected the login, with its own message.
    ServerRejected(String),
    /// The response is not a readable verdict; probe the network instead
    /// (the optimistic fallback).
    NeedFallbackProbe,
}

/// The verdict in a login response: for an HTTP 200 body that strips and
/// parses as JSONP, `result == 1` is success, a recognized blackout
/// message is off-hours, and anything else is the server's rejection;
/// every unreadable response defers to the fallback probe.
pub fn assess_login_response(status: u16, body: &[u8]) -> (r: LoginAssessment)
    ensures
        status != 200 ==> r is NeedFallbackProbe,
        status == 200 ==> match jsonp_inner(body@) {
            Option::None => r is NeedFallbackProbe,
            Option::Some(inner) => match json_auth_result_of(inner) {
                Option::None => r is NeedFallbackProbe,
                Option::Some(p) => {
                    if p.0 == 1 {
                        r is Success
                    } else if is_off_hours_msg(p.1) {
                        r is OffHours
                    } else {
                        r matches LoginAssessment::ServerRejected(m) && m@ == p.1
                    }
                },
            },
        },
{
    if status != 200 {
        return LoginAssessment::NeedFallbackProbe;
    }
    let n = body.len();
    if n <= 9 {
        return LoginAssessment::NeedFallbackProbe;
    }
    let inner = slice_subrange(body, 7, n - 2);
    match parse_auth_result(inner) {
        None => LoginAssessment::NeedFallbackProbe,
        Some((result, msg)) => {
            if result == 1 {
                LoginAssessment::Success
            } else if str_eq(msg.as_str(), "Authentication Fail ErrCode=16") || str_eq(
                msg.as_str(),
                "当前时间禁止上网",
            ) {
                LoginAssessment::OffHours
            } else {
                LoginAssessment::ServerRejected(msg)
            }
        },
    }
}

/// The end of a login attempt whose response was unreadable: the fallback
/// probe's 204 means the network is open, so the attempt passes as a
/// success; any other answer is an authentication failure, and a transport
/// failure surfaces as such.
pub fn conclude_login_fallback(probe_status: Result<u16, String>) -> (r: Result<
    (),
    WifiLoginError,
>)
    ensures
        probe_status matches Ok(status) ==> if status == 204 {
            r is Ok
        } else {
            r matches Err(e) && e is AuthenticationFailed
        },
        probe_status matches Err(m) ==> (r matches Err(
            WifiLoginError::HttpRequestFailed(s),
        ) && s@ == m@),
{
    match probe_status {
        Ok(status) => {
            if status == 204 {
                Ok(())
            } else {
                Err(WifiLoginError::AuthenticationFailed())
            }
        },
        Err(m) => Err(WifiLoginError::HttpRequestFailed(m)),
    }
}

} // verus!
