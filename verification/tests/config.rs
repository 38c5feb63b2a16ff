use syslog_hv::config::{Config, ConfigError, IpFamily, Options, Target};

fn target_of(family: IpFamily, ip: &str, port: u16) -> Target {
    Target { family, ip: String::from(ip), port }
}

fn options_of(priority_max: u8, words_max: u8, words_fixed: u8) -> Options {
    Options { sleep_us: 1, priority_max, words_max, words_fixed }
}

#[test]
fn ipv4_target_is_ip_colon_port() {
    let target = target_of(IpFamily::V4, "127.0.0.1", 514);
    assert!(target.is_ipv4());
    assert_eq!(target.as_str(), "127.0.0.1:514");
}

#[test]
fn ipv6_target_has_the_ip_in_brackets() {
    let target = target_of(IpFamily::V6, "::1", 20001);
    assert!(!target.is_ipv4());
    assert_eq!(target.as_str(), "[::1]:20001");
    let other = target_of(IpFamily::V6, "2001:db8::ff00:42:8329", 65535);
    assert_eq!(other.as_str(), "[2001:db8::ff00:42:8329]:65535");
}

#[test]
fn target_port_bounds() {
    assert_eq!(target_of(IpFamily::V4, "10.0.0.1", 0).as_str(), "10.0.0.1:0");
    assert_eq!(target_of(IpFamily::V4, "10.0.0.1", 65535).as_str(), "10.0.0.1:65535");
}

#[test]
fn ipv4_sender_binds_to_any_address() {
    let target = target_of(IpFamily::V4, "192.0.2.7", 514);
    assert_eq!(target.bind_to(), "0.0.0.0:0");
}

#[test]
fn ipv6_sender_binds_to_loopback() {
    let target = target_of(IpFamily::V6, "::1", 20001);
    assert_eq!(target.bind_to(), "[::1]:0");
    let far = target_of(IpFamily::V6, "2001:db8::1", 514);
    assert_eq!(far.bind_to(), "[::1]:0");
}

#[test]
fn default_options_are_valid() {
    let options = Options { sleep_us: 1, priority_max: 50, words_max: 20, words_fixed: 0 };
    assert_eq!(options.validate(), Ok(()));
}

#[test]
fn zero_priority_max_is_rejected() {
    assert_eq!(options_of(0, 20, 0).validate(), Err(ConfigError::NoPriority));
    assert_eq!(options_of(0, 20, 3).validate(), Err(ConfigError::NoPriority));
}

#[test]
fn empty_word_range_is_rejected_when_words_vary() {
    assert_eq!(options_of(50, 1, 0).validate(), Err(ConfigError::NoWordCount));
    assert_eq!(options_of(50, 0, 0).validate(), Err(ConfigError::NoWordCount));
}

#[test]
fn word_range_is_not_looked_at_when_words_are_fixed() {
    assert_eq!(options_of(50, 0, 1).validate(), Ok(()));
    assert_eq!(options_of(50, 1, 255).validate(), Ok(()));
}

#[test]
fn of_two_faults_the_word_range_is_reported() {
    assert_eq!(options_of(0, 1, 0).validate(), Err(ConfigError::NoWordCount));
}

#[test]
fn smallest_valid_bounds() {
    assert_eq!(options_of(1, 2, 0).validate(), Ok(()));
    assert_eq!(options_of(255, 255, 0).validate(), Ok(()));
}

#[test]
fn config_holds_target_and_options() {
    let config = Config {
        target: target_of(IpFamily::V4, "127.0.0.1", 514),
        options: options_of(50, 20, 0),
    };
    assert_eq!(config.options, options_of(50, 20, 0));
    assert_eq!(config.target.as_str(), "127.0.0.1:514");
    assert_eq!(config.target.family, IpFamily::V4);
    assert_eq!(config.target.port, 514);
}
