use njupt_wifi_login::credential::{Credential, IspType};
use njupt_wifi_login::login::{
    ap_portal_url, assess_login_response, build_login_params, conclude_login_fallback,
    login_endpoint_url, network_status_from_responses, random_url_for_connectivity_check_204,
    LoginAssessment, NetworkStatus, WifiLoginError,
};
use njupt_wifi_login::password::Password;
use njupt_wifi_login::portal_text::{contains_authentication_marker, extract_ap_ip};

const MARKER_BODY: &str = "<html>Authentication is required. Click <a href=\"http://p.njupt.edu.cn\">here</a> to open the authentication page.</html>";

#[test]
fn probe_204_means_connected() {
    let r = network_status_from_responses(Some((204, "")), None);
    assert!(matches!(r, NetworkStatus::Connected));
}

#[test]
fn probe_200_with_marker_and_info_page_means_authentication_required() {
    let portal = "<script>v46ip='10.0.0.5';v4serip='x'</script>";
    let r = network_status_from_responses(Some((200, MARKER_BODY)), Some((200, portal)));
    match r {
        NetworkStatus::AuthenticationRequired(ap) => assert_eq!(ap.user_ip, "10.0.0.5"),
        _ => panic!("expected AuthenticationRequired"),
    }
}

#[test]
fn probe_200_with_marker_but_no_scrapable_info_is_unknown() {
    let r = network_status_from_responses(Some((200, MARKER_BODY)), Some((200, "<html></html>")));
    assert!(matches!(r, NetworkStatus::AuthenticationUnknown));
    let r = network_status_from_responses(Some((200, MARKER_BODY)), Some((500, "v46ip='1.2.3.4'")));
    assert!(matches!(r, NetworkStatus::AuthenticationUnknown));
    let r = network_status_from_responses(Some((200, MARKER_BODY)), None);
    assert!(matches!(r, NetworkStatus::AuthenticationUnknown));
}

#[test]
fn probe_200_without_marker_is_unknown() {
    let r = network_status_from_responses(Some((200, "<html>welcome</html>")), None);
    assert!(matches!(r, NetworkStatus::AuthenticationUnknown));
}

#[test]
fn probe_redirects_are_unknown() {
    assert!(matches!(
        network_status_from_responses(Some((302, "")), None),
        NetworkStatus::AuthenticationUnknown
    ));
    assert!(matches!(
        network_status_from_responses(Some((307, "")), None),
        NetworkStatus::AuthenticationUnknown
    ));
}

#[test]
fn probe_transport_error_and_server_errors_are_disconnected() {
    assert!(matches!(
        network_status_from_responses(None, None),
        NetworkStatus::Disconnected
    ));
    assert!(matches!(
        network_status_from_responses(Some((500, "oops")), None),
        NetworkStatus::Disconnected
    ));
    assert!(matches!(
        network_status_from_responses(Some((404, "")), None),
        NetworkStatus::Disconnected
    ));
}

#[test]
fn marker_detection_follows_the_fixed_shape() {
    assert!(contains_authentication_marker(MARKER_BODY));
    assert!(!contains_authentication_marker("<html>welcome</html>"));
    // the middle must stay on one line
    let split = "Authentication is required. Click <a href=\"a\nb\">here</a> to open the authentication page.";
    assert!(!contains_authentication_marker(split));
    // a carriage return is not a line break
    let cr = "Authentication is required. Click <a href=\"a\rb\">here</a> to open the authentication page.";
    assert!(contains_authentication_marker(cr));
    // an empty link target is still the marker
    let empty = "Authentication is required. Click <a href=\"\">here</a> to open the authentication page.";
    assert!(contains_authentication_marker(empty));
}

#[test]
fn ap_ip_extraction_takes_the_leftmost_completable_match() {
    assert_eq!(extract_ap_ip("v46ip='10.0.0.5'").unwrap(), "10.0.0.5");
    assert_eq!(extract_ap_ip("x v46ip='a' y v46ip='b'").unwrap(), "a");
    // a head whose quote never comes on its line is skipped
    assert_eq!(extract_ap_ip("v46ip=broken\nv46ip='x'").unwrap(), "x");
    assert_eq!(extract_ap_ip("v46ip='unclosed\nv46ip='x'").unwrap(), "x");
    assert_eq!(extract_ap_ip("v46ip=''").unwrap(), "");
    assert!(extract_ap_ip("nothing here").is_none());
    assert!(extract_ap_ip("v46ip='no quote").is_none());
}

#[test]
fn connectivity_check_urls_rotate_round_robin() {
    let mut counter: u64 = 0;
    let a = random_url_for_connectivity_check_204(&mut counter);
    let b = random_url_for_connectivity_check_204(&mut counter);
    let c = random_url_for_connectivity_check_204(&mut counter);
    let d = random_url_for_connectivity_check_204(&mut counter);
    assert_eq!(a, "http://connect.rom.miui.com/generate_204");
    assert_eq!(b, "http://connectivitycheck.platform.hicloud.com/generate_204");
    assert_eq!(c, "http://wifi.vivo.com.cn/generate_204");
    assert_eq!(d, a);
    assert_eq!(counter, 4);
}

#[test]
fn connectivity_check_counter_wraps() {
    let mut counter = u64::MAX;
    let _ = random_url_for_connectivity_check_204(&mut counter);
    assert_eq!(counter, 0);
}

#[test]
fn fixed_endpoints_are_the_portals() {
    assert_eq!(ap_portal_url(), "https://p.njupt.edu.cn/a79.htm");
    assert_eq!(
        login_endpoint_url(),
        "https://p.njupt.edu.cn:802/eportal/portal/login"
    );
}

#[test]
fn login_response_result_one_is_success() {
    let r = assess_login_response(200, b"dr1003({\"result\":1,\"msg\":\"ok\"});");
    assert!(matches!(r, LoginAssessment::Success));
    // extra fields and spacing do not matter
    let r = assess_login_response(
        200,
        b"dr1003( {\"msg\": \"fine\", \"result\": 1, \"ret_code\": 2} );",
    );
    assert!(matches!(r, LoginAssessment::Success));
}

#[test]
fn login_response_off_hours_messages_are_recognized() {
    let r = assess_login_response(
        200,
        b"dr1003({\"result\":0,\"msg\":\"Authentication Fail ErrCode=16\"});",
    );
    assert!(matches!(r, LoginAssessment::OffHours));
    let body = format!(
        "dr1003({{\"result\":0,\"msg\":\"{}\"}});",
        "\u{5f53}\u{524d}\u{65f6}\u{95f4}\u{7981}\u{6b62}\u{4e0a}\u{7f51}"
    );
    let r = assess_login_response(200, body.as_bytes());
    assert!(matches!(r, LoginAssessment::OffHours));
}

#[test]
fn login_response_other_messages_are_server_rejections() {
    let r = assess_login_response(200, b"dr1003({\"result\":0,\"msg\":\"bad password\"});");
    match r {
        LoginAssessment::ServerRejected(m) => assert_eq!(m, "bad password"),
        _ => panic!("expected ServerRejected"),
    }
}

#[test]
fn unreadable_login_responses_defer_to_the_fallback_probe() {
    assert!(matches!(
        assess_login_response(500, b"dr1003({\"result\":1,\"msg\":\"ok\"});"),
        LoginAssessment::NeedFallbackProbe
    ));
    assert!(matches!(
        assess_login_response(200, b"dr1003();"),
        LoginAssessment::NeedFallbackProbe
    ));
    assert!(matches!(
        assess_login_response(200, b"<html>not jsonp</html>"),
        LoginAssessment::NeedFallbackProbe
    ));
    assert!(matches!(
        assess_login_response(200, b"dr1003({\"msg\":\"no result\"});"),
        LoginAssessment::NeedFallbackProbe
    ));
}

#[test]
fn fallback_probe_204_passes_as_success() {
    assert!(conclude_login_fallback(Ok(204)).is_ok());
    assert!(matches!(
        conclude_login_fallback(Ok(200)),
        Err(WifiLoginError::AuthenticationFailed())
    ));
    match conclude_login_fallback(Err(String::from("timed out"))) {
        Err(WifiLoginError::HttpRequestFailed(m)) => assert_eq!(m, "timed out"),
        _ => panic!("expected HttpRequestFailed"),
    }
}

#[test]
fn login_params_carry_account_password_and_ap_info() {
    let c = Credential::new(
        String::from("u"),
        Password::new_basic(String::from("pw")),
        IspType::CMCC,
    );
    let ap = njupt_wifi_login::login::ApInfo {
        user_ip: String::from("10.0.0.5"),
    };
    let params = build_login_params(&c, &ap).unwrap();
    assert_eq!(params.len(), 14);
    assert_eq!(params[0], (String::from("callback"), String::from("dr1003")));
    assert_eq!(
        params[2],
        (String::from("user_account"), String::from(",0,u@cmcc"))
    );
    assert_eq!(
        params[3],
        (String::from("user_password"), String::from("pw"))
    );
    assert_eq!(
        params[4],
        (String::from("wlan_user_ip"), String::from("10.0.0.5"))
    );
    assert_eq!(params[13], (String::from("lang"), String::from("zh")));
}
