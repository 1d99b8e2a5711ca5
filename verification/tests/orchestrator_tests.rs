use njupt_wifi_login::bind::{smart_bind_target, BindTarget, InterfaceInfo, IpAddress,
    SmartBindToInterfaceError};
use njupt_wifi_login::credential::{Credential, IspType};
use njupt_wifi_login::dns::{fallback_addr_for, upstream_dns_servers};
use njupt_wifi_login::login::{assess_login_response, conclude_login_fallback,
    network_status_from_responses, LoginAssessment, NetworkStatus, WifiLoginError};
use njupt_wifi_login::network_changed::{connectivity_hint_warrants_check,
    route_event_warrants_check, ConnectivityLevelHint};
use njupt_wifi_login::off_hours_cache::OffHoursCache;
use njupt_wifi_login::orchestrator::{apply_login_outcome, default_check_interval,
    effective_check_interval, regular_check_step, should_attempt_login, Debouncer, LoginConfig};
use njupt_wifi_login::password::Password;

// 1970-01-02 at the given UTC time of day, in seconds since the epoch
fn at(hour: u64, minute: u64, second: u64) -> u64 {
    86400 + hour * 3600 + minute * 60 + second
}

#[test]
fn debounce_drops_the_second_of_two_close_signals() {
    let mut d = Debouncer::new();
    assert!(d.should_process(1000));
    assert!(!d.should_process(5999)); // 4999 ms later: dropped
    assert!(d.should_process(6000)); // 5000 ms after the processed one
}

#[test]
fn debounce_lets_a_first_signal_through() {
    let mut d = Debouncer::new();
    assert!(d.should_process(0));
}

#[test]
fn debounce_ignores_a_clock_running_backwards() {
    let mut d = Debouncer::new();
    assert!(d.should_process(10_000));
    assert!(!d.should_process(9_000));
    assert!(d.should_process(15_000));
}

#[test]
fn off_hours_set_inside_the_window_arms_a_bounded_suppression() {
    let mut cache = OffHoursCache::new();
    let now = at(16, 0, 0);
    cache.set_at(now);
    let e = cache.expiration_at(now);
    assert!(0 < e && e <= 27900);
    assert_eq!(e, 7 * 3600 + 5 * 60); // until 23:05:00
}

#[test]
fn off_hours_window_boundaries() {
    let mut cache = OffHoursCache::new();
    cache.set_at(at(15, 20, 0));
    assert_eq!(cache.expiration_at(at(15, 20, 0)), 27900);
    let mut cache = OffHoursCache::new();
    cache.set_at(at(22, 20, 59));
    assert_eq!(cache.expiration_at(at(22, 20, 59)), 2700);
    let mut cache = OffHoursCache::new();
    cache.set_at(at(22, 21, 0)); // just outside
    assert_eq!(cache.expiration_at(at(22, 21, 0)), 0);
    let mut cache = OffHoursCache::new();
    cache.set_at(at(15, 19, 59)); // just before
    assert_eq!(cache.expiration_at(at(15, 19, 59)), 0);
}

#[test]
fn off_hours_set_outside_the_window_stays_clear() {
    let mut cache = OffHoursCache::new();
    cache.set_at(at(12, 0, 0));
    assert_eq!(cache.expiration_at(at(12, 0, 0)), 0);
}

#[test]
fn off_hours_expiration_counts_down_and_runs_out() {
    let mut cache = OffHoursCache::new();
    let now = at(16, 0, 0);
    cache.set_at(now);
    assert_eq!(cache.expiration_at(now + 3600), 6 * 3600 + 5 * 60);
    assert_eq!(cache.expiration_at(now + 9 * 3600), 0); // past the cutoff
}

#[test]
fn off_hours_clear_always_resets() {
    let mut cache = OffHoursCache::new();
    cache.set_at(at(16, 0, 0));
    cache.clear();
    assert_eq!(cache.expiration_at(at(16, 0, 0)), 0);
    assert_eq!(cache.expiration(), 0);
}

#[test]
fn regular_check_emits_only_without_suppression() {
    assert_eq!(regular_check_step(0, 1200), (true, 1200));
    assert_eq!(regular_check_step(100, 1200), (false, 100));
    assert_eq!(regular_check_step(2000, 1200), (false, 1200));
}

#[test]
fn check_interval_has_an_unconditional_floor() {
    assert_eq!(default_check_interval(), 1200);
    assert_eq!(effective_check_interval(0), 60);
    assert_eq!(effective_check_interval(1), 60);
    assert_eq!(effective_check_interval(59), 60);
    assert_eq!(effective_check_interval(60), 60);
    assert_eq!(effective_check_interval(1200), 1200);
}

#[test]
fn only_an_intercepted_probe_warrants_a_login() {
    assert!(!should_attempt_login(&NetworkStatus::Connected));
    assert!(!should_attempt_login(&NetworkStatus::AuthenticationUnknown));
    assert!(!should_attempt_login(&NetworkStatus::Disconnected));
    let ap = njupt_wifi_login::login::ApInfo {
        user_ip: String::from("10.0.0.5"),
    };
    assert!(should_attempt_login(&NetworkStatus::AuthenticationRequired(ap)));
}

#[test]
fn login_outcome_drives_the_off_hours_cache() {
    let mut cache = OffHoursCache::new();
    let in_window = at(16, 0, 0);
    apply_login_outcome(&mut cache, &Err(WifiLoginError::OffHours()), in_window);
    assert!(cache.expiration_at(in_window) > 0);
    apply_login_outcome(&mut cache, &Ok(()), in_window);
    assert_eq!(cache.expiration_at(in_window), 0);
    apply_login_outcome(
        &mut cache,
        &Err(WifiLoginError::ServerRejected(String::from("no"))),
        in_window,
    );
    assert_eq!(cache.expiration_at(in_window), 0);
}

#[test]
fn config_holds_the_orchestrators_state() {
    let config = LoginConfig {
        credential: Credential::new(
            String::from("u"),
            Password::new_basic(String::from("p")),
            IspType::EDU,
        ),
        check_interval: default_check_interval(),
        interface: None,
    };
    assert_eq!(config.check_interval, 1200);
    assert!(config.interface.is_none());
}

const MARKER_BODY: &str = "Authentication is required. Click <a href=\"http://x\">here</a> to open the authentication page.";

#[test]
fn scenario_open_network_probes_and_stays_quiet() {
    let status = network_status_from_responses(Some((204, "")), None);
    assert!(matches!(status, NetworkStatus::Connected));
    assert!(!should_attempt_login(&status));
}

#[test]
fn scenario_intercepted_probe_logs_in_and_clears_the_cache() {
    let status =
        network_status_from_responses(Some((200, MARKER_BODY)), Some((200, "v46ip='10.0.0.5'")));
    let ap = match status {
        NetworkStatus::AuthenticationRequired(ap) => ap,
        _ => panic!("expected AuthenticationRequired"),
    };
    assert_eq!(ap.user_ip, "10.0.0.5");
    let verdict = assess_login_response(200, b"dr1003({\"result\":1,\"msg\":\"ok\"});");
    assert!(matches!(verdict, LoginAssessment::Success));
    let mut cache = OffHoursCache::new();
    cache.set_at(at(16, 0, 0));
    apply_login_outcome(&mut cache, &Ok(()), at(16, 0, 0));
    assert_eq!(cache.expiration_at(at(16, 0, 0)), 0);
}

#[test]
fn scenario_off_hours_rejection_arms_the_suppression() {
    let verdict = assess_login_response(
        200,
        b"dr1003({\"result\":0,\"msg\":\"Authentication Fail ErrCode=16\"});",
    );
    assert!(matches!(verdict, LoginAssessment::OffHours));
    let mut cache = OffHoursCache::new();
    let now = at(16, 0, 0);
    apply_login_outcome(&mut cache, &Err(WifiLoginError::OffHours()), now);
    assert!(cache.expiration_at(now) > 0);
}

#[test]
fn scenario_malformed_verdict_falls_back_to_an_open_probe() {
    let verdict = assess_login_response(200, b"<gateway error>");
    assert!(matches!(verdict, LoginAssessment::NeedFallbackProbe));
    assert!(conclude_login_fallback(Ok(204)).is_ok());
}

#[test]
fn connectivity_hints_filter_to_portal_shaped_levels() {
    assert!(connectivity_hint_warrants_check(
        &ConnectivityLevelHint::ConstrainedInternetAccess
    ));
    assert!(connectivity_hint_warrants_check(&ConnectivityLevelHint::LocalAccess));
    assert!(!connectivity_hint_warrants_check(&ConnectivityLevelHint::InternetAccess));
    assert!(!connectivity_hint_warrants_check(&ConnectivityLevelHint::Unknown));
    assert!(!connectivity_hint_warrants_check(&ConnectivityLevelHint::NoTraffic));
    assert!(!connectivity_hint_warrants_check(&ConnectivityLevelHint::Hidden));
}

#[test]
fn route_events_filter_on_gateway_and_interface() {
    assert!(route_event_warrants_check(true, None, None));
    assert!(!route_event_warrants_check(false, Some("eth0"), None));
    assert!(route_event_warrants_check(true, Some("eth0"), Some("eth0")));
    assert!(!route_event_warrants_check(true, Some("wlan0"), Some("eth0")));
    assert!(!route_event_warrants_check(true, None, Some("eth0")));
    assert!(route_event_warrants_check(true, None, Some("")));
}

fn table() -> Vec<InterfaceInfo> {
    vec![
        InterfaceInfo {
            name: String::from("lo"),
            addrs: vec![IpAddress::V4(127, 0, 0, 1)],
        },
        InterfaceInfo {
            name: String::from("wlan0"),
            addrs: vec![IpAddress::V6(1), IpAddress::V4(10, 0, 0, 5)],
        },
        InterfaceInfo {
            name: String::from("tun0"),
            addrs: vec![IpAddress::V6(7)],
        },
    ]
}

#[test]
fn bind_by_device_names_the_interface() {
    let t = smart_bind_target(&table(), "wlan0", true, true).unwrap();
    assert!(matches!(t, BindTarget::Device(ref d) if d == "wlan0"));
}

#[test]
fn bind_by_address_prefers_the_v4_family() {
    let t = smart_bind_target(&table(), "wlan0", true, false).unwrap();
    assert!(matches!(t, BindTarget::Address(IpAddress::V4(10, 0, 0, 5))));
    // without a v4 address the first address serves
    let t = smart_bind_target(&table(), "tun0", true, false).unwrap();
    assert!(matches!(t, BindTarget::Address(IpAddress::V6(7))));
}

#[test]
fn bind_with_an_empty_name_binds_nothing() {
    let t = smart_bind_target(&table(), "", true, true).unwrap();
    assert!(matches!(t, BindTarget::NoBind));
}

#[test]
fn bind_by_address_fails_when_the_interface_has_none() {
    let t = vec![InterfaceInfo {
        name: String::from("dummy0"),
        addrs: vec![],
    }];
    match smart_bind_target(&t, "dummy0", true, false) {
        Err(SmartBindToInterfaceError::InterfaceNotFound(name)) => assert_eq!(name, "dummy0"),
        _ => panic!("expected InterfaceNotFound"),
    }
}

#[test]
fn bind_to_an_unknown_interface_fails_by_name() {
    match smart_bind_target(&table(), "eth9", true, true) {
        Err(SmartBindToInterfaceError::InterfaceNotFound(name)) => assert_eq!(name, "eth9"),
        _ => panic!("expected InterfaceNotFound"),
    }
}

#[test]
fn dns_fallback_serves_only_the_portal_host() {
    assert_eq!(
        fallback_addr_for("p.njupt.edu.cn"),
        Some(IpAddress::V4(10, 10, 244, 11))
    );
    assert_eq!(fallback_addr_for("example.com"), None);
    assert_eq!(fallback_addr_for(""), None);
}

#[test]
fn dns_upstreams_are_the_fixed_pair() {
    assert_eq!(
        upstream_dns_servers(),
        vec![IpAddress::V4(8, 8, 8, 8), IpAddress::V4(114, 114, 114, 114)]
    );
}
