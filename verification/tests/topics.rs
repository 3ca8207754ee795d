use airplay_bridge::config_types::{get_device_address, get_device_id, get_device_name, AudioDevice, Config};
use airplay_bridge::topics::{
    decimal_text, get_availability_topic, get_command_topic, get_discovery_topic, get_state_topic,
};

fn kitchen() -> AudioDevice {
    AudioDevice::Airplay {
        name: "Kitchen".to_string(),
        instance_id: 100,
        ip_addr: "10.0.0.5".to_string(),
    }
}

fn config(prefix: Option<&str>, port: Option<u16>) -> Config {
    Config {
        discovery_prefix: prefix.map(|p| p.to_string()),
        node_id: "snapnode".to_string(),
        mqtt_host: "broker.local".to_string(),
        mqtt_port: port,
        mqtt_user: "user".to_string(),
        mqtt_pass: "pass".to_string(),
        devices: vec![kitchen()],
    }
}

#[test]
fn decimal_text_of_zero_is_one_digit() {
    assert_eq!(decimal_text(0), "0");
}

#[test]
fn decimal_text_of_single_digits() {
    for n in 0..10usize {
        assert_eq!(decimal_text(n), n.to_string());
    }
}

#[test]
fn decimal_text_has_no_leading_zero() {
    assert_eq!(decimal_text(10), "10");
    assert_eq!(decimal_text(100), "100");
    assert_eq!(decimal_text(1009), "1009");
    assert_eq!(decimal_text(907_060), "907060");
}

#[test]
fn decimal_text_of_the_largest_number() {
    assert_eq!(decimal_text(usize::MAX), usize::MAX.to_string());
}

#[test]
fn decimal_text_agrees_with_std_on_many_numbers() {
    let mut n: usize = 1;
    for _ in 0..200 {
        assert_eq!(decimal_text(n), n.to_string());
        n = n.wrapping_mul(31).wrapping_add(7);
    }
}

#[test]
fn state_topic_has_node_then_number_then_state() {
    assert_eq!(get_state_topic("snapnode", 100), "snapnode/100/state");
}

#[test]
fn command_topic_has_node_then_number_then_command() {
    assert_eq!(get_command_topic("snapnode", 100), "snapnode/100/command");
}

#[test]
fn availability_topic_has_node_then_availability() {
    assert_eq!(get_availability_topic("snapnode"), "snapnode/availability");
}

#[test]
fn discovery_topic_has_prefix_switch_node_number_config() {
    assert_eq!(
        get_discovery_topic("homeassistant", "snapnode", 100),
        "homeassistant/switch/snapnode/100/config"
    );
}

#[test]
fn topics_of_an_empty_node_and_number_zero() {
    assert_eq!(get_state_topic("", 0), "/0/state");
    assert_eq!(get_command_topic("", 0), "/0/command");
    assert_eq!(get_availability_topic(""), "/availability");
    assert_eq!(get_discovery_topic("", "", 0), "/switch//0/config");
}

#[test]
fn topics_keep_a_node_name_that_is_not_ascii() {
    assert_eq!(get_state_topic("küche", 7), "küche/7/state");
    assert_eq!(get_command_topic("küche", 7), "küche/7/command");
}

#[test]
fn device_id_name_and_address_are_read_from_the_device() {
    let device = kitchen();
    assert_eq!(get_device_id(&device), 100);
    assert_eq!(get_device_name(&&device), "Kitchen");
    assert_eq!(get_device_address(&device), "10.0.0.5");
}

#[test]
fn port_defaults_to_1883() {
    assert_eq!(config(None, None).port(), 1883);
    assert_eq!(config(None, Some(8883)).port(), 8883);
}

#[test]
fn discovery_prefix_defaults_to_homeassistant() {
    assert_eq!(config(None, None).prefix(), "homeassistant");
    assert_eq!(config(Some("ha"), None).prefix(), "ha");
}
