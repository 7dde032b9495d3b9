use bgp_watchdog::config::{Config, IP_BIN, SEARCH_SUBSTR, SLEEP_TIME, SYSTEMCTL_BIN, SYSTEMD_SERVICE_NAME};

#[test]
fn standard_settings() {
    let c = Config::standard();
    assert_eq!(c.ip_bin, "/usr/sbin/ip");
    assert_eq!(c.search_substr, " bgp ");
    assert_eq!(c.sleep_time, 30);
    assert_eq!(c.systemctl_bin, "/usr/bin/systemctl");
    assert_eq!(c.service_name, "frr");
    assert_eq!(IP_BIN, c.ip_bin);
    assert_eq!(SEARCH_SUBSTR, c.search_substr);
    assert_eq!(SLEEP_TIME, c.sleep_time);
    assert_eq!(SYSTEMCTL_BIN, c.systemctl_bin);
    assert_eq!(SYSTEMD_SERVICE_NAME, c.service_name);
}

#[test]
fn command_arguments() {
    let c = Config::standard();
    assert_eq!(c.route_list_args(), vec!["route".to_string(), "show".to_string()]);
    assert_eq!(c.restart_args(), vec!["restart".to_string(), "frr".to_string()]);
}
