use sshp::cfg::{Config, DynamicProxyConfig, MultiDynamicProxyConfig};

fn full_config() -> Config {
    Config {
        dynamic_proxy: Some(DynamicProxyConfig {
            local_addr: "0.0.0.0:7070".to_string(),
            remote_user: Some("alice".to_string()),
            remote_ip: "198.51.100.7".to_string(),
            remote_port: Some(2200),
            heart_beat_interval: Some(15),
        }),
        multi_proxy: Some(MultiDynamicProxyConfig {
            local_addr: "127.0.0.1:1080".to_string(),
            local_forward_port: Some(5000),
            remote_user: Some("bob".to_string()),
            remote_ip: "203.0.113.5".to_string(),
            remote_port: Some(2201),
            heart_beat_interval: Some(45),
            forward_ip: "192.0.2.9".to_string(),
            forward_port: Some(2202),
            forward_user: Some("carol".to_string()),
        }),
        probe_failed_times_when_exit: Some(7),
        probe_check_interval: Some(11),
    }
}

fn defaulted_config() -> Config {
    Config {
        dynamic_proxy: Some(DynamicProxyConfig {
            local_addr: "0.0.0.0:7070".to_string(),
            remote_user: None,
            remote_ip: "198.51.100.7".to_string(),
            remote_port: None,
            heart_beat_interval: None,
        }),
        multi_proxy: Some(MultiDynamicProxyConfig {
            local_addr: "127.0.0.1:1080".to_string(),
            local_forward_port: None,
            remote_user: None,
            remote_ip: "203.0.113.5".to_string(),
            remote_port: None,
            heart_beat_interval: None,
            forward_ip: "192.0.2.9".to_string(),
            forward_port: None,
            forward_user: None,
        }),
        probe_failed_times_when_exit: None,
        probe_check_interval: None,
    }
}

#[test]
fn explicit_values_come_through() {
    let c = full_config();
    assert_eq!(c.get_dynamic_local_addr(), "0.0.0.0:7070");
    assert_eq!(c.get_dynamic_remote_user(), "alice");
    assert_eq!(c.get_dynamic_remote_ip(), "198.51.100.7");
    assert_eq!(c.get_dynamic_remote_port(), 2200);
    assert_eq!(c.get_dynamic_heart_beat_interval(), 15);
    assert_eq!(c.get_multi_dynamic_local_addr(), "127.0.0.1:1080");
    assert_eq!(c.get_multi_dynamic_remote_user(), "bob");
    assert_eq!(c.get_multi_dynamic_remote_ip(), "203.0.113.5");
    assert_eq!(c.get_multi_dynamic_remote_port(), 2201);
    assert_eq!(c.get_multi_dynamic_heart_beat_interval(), 45);
    assert_eq!(c.get_multi_dynamic_forward_user(), "carol");
    assert_eq!(c.get_multi_dynamic_forward_ip(), "192.0.2.9");
    assert_eq!(c.get_multi_dynamic_forward_port(), 2202);
    assert_eq!(c.get_multi_dynamic_local_forward_port(), Some(5000));
    assert_eq!(c.get_probe_failed_times_when_exit(), 7);
    assert_eq!(c.get_probe_check_interval(), 11);
}

#[test]
fn missing_values_fall_back_to_the_documented_defaults() {
    let c = defaulted_config();
    assert_eq!(c.get_dynamic_remote_user(), "root");
    assert_eq!(c.get_dynamic_remote_port(), 22);
    assert_eq!(c.get_dynamic_heart_beat_interval(), 60);
    assert_eq!(c.get_multi_dynamic_remote_user(), "root");
    assert_eq!(c.get_multi_dynamic_remote_port(), 22);
    assert_eq!(c.get_multi_dynamic_heart_beat_interval(), 60);
    assert_eq!(c.get_multi_dynamic_forward_user(), "root");
    assert_eq!(c.get_multi_dynamic_forward_port(), 22);
    assert_eq!(c.get_multi_dynamic_local_forward_port(), None);
    assert_eq!(c.get_probe_failed_times_when_exit(), 3);
    assert_eq!(c.get_probe_check_interval(), 5);
}

#[test]
fn sections_load_when_present() {
    let c = full_config();
    let d = c.load_dynamic_config();
    assert_eq!(d.local_addr, "0.0.0.0:7070");
    let m = c.load_multi_dynamic_config();
    assert_eq!(m.forward_ip, "192.0.2.9");
}
