use vstd::prelude::*;

verus! {

/// Executable that lists the routing table.
pub const IP_BIN: &'static str = "/usr/sbin/ip";

/// Text whose presence in the listing shows that protocol routes are installed.
pub const SEARCH_SUBSTR: &'static str = " bgp ";

/// Seconds slept between two cycles.
pub const SLEEP_TIME: u64 = 30;

/// Executable of the service manager.
pub const SYSTEMCTL_BIN: &'static str = "/usr/bin/systemctl";

/// Service restarted when the routes are missing.
pub const SYSTEMD_SERVICE_NAME: &'static str = "frr";

/// The watchdog's fixed settings.
pub struct Config {
    pub ip_bin: String,
    pub search_substr: String,
    pub sleep_time: u64,
    pub systemctl_bin: String,
    pub service_name: String,
}

impl Config {
    /// The settings the daemon runs with.
    pub fn standard() -> (r: Config)
        ensures
            r.ip_bin@ == IP_BIN@,
            r.search_substr@ == SEARCH_SUBSTR@,
            r.sleep_time == SLEEP_TIME,
            r.systemctl_bin@ == SYSTEMCTL_BIN@,
            r.service_name@ == SYSTEMD_SERVICE_NAME@,
    {
        Config {
            ip_bin: IP_BIN.to_owned(),
            search_substr: SEARCH_SUBSTR.to_owned(),
            sleep_time: SLEEP_TIME,
            systemctl_bin: SYSTEMCTL_BIN.to_owned(),
            service_name: SYSTEMD_SERVICE_NAME.to_owned(),
        }
    }

    /// Arguments that make the route tool list the IPv4 table.
    pub fn route_list_args(&self) -> (r: Vec<String>)
        ensures
            r@.len() == 2,
            r@[0]@ == "route"@,
            r@[1]@ == "show"@,
    {
        let mut r: Vec<String> = Vec::new();
        r.push("route".to_owned());
        r.push("show".to_owned());
        r
    }

    /// Arguments that make the service manager restart the configured service.
    pub fn restart_args(&self) -> (r: Vec<String>)
        ensures
            r@.len() == 2,
            r@[0]@ == "restart"@,
            r@[1]@ == self.service_name@,
    {
        let mut r: Vec<String> = Vec::new();
        r.push("restart".to_owned());
        r.push(self.service_name.clone());
        r
    }
}

} // verus!
