use airplay_bridge::bootstrap::{last_will, startup, StartupAction};
use airplay_bridge::bus::{Publish, QoS};
use airplay_bridge::config_types::{AudioDevice, Config};
use airplay_bridge::connect_airplay::Phase;
use airplay_bridge::discovery::{announce, announcement, DiscoveryError};

fn device(name: &str, instance_id: usize, ip_addr: &str) -> AudioDevice {
    AudioDevice::Airplay {
        name: name.to_string(),
        instance_id,
        ip_addr: ip_addr.to_string(),
    }
}

fn config(prefix: Option<&str>, devices: Vec<AudioDevice>) -> Config {
    Config {
        discovery_prefix: prefix.map(|p| p.to_string()),
        node_id: "snapnode".to_string(),
        mqtt_host: "broker.local".to_string(),
        mqtt_port: None,
        mqtt_user: "user".to_string(),
        mqtt_pass: "pass".to_string(),
        devices,
    }
}

fn retained(topic: &str, payload: &[u8]) -> Publish {
    Publish {
        topic: topic.to_string(),
        qos: QoS::AtLeastOnce,
        retained: true,
        payload: payload.to_vec(),
    }
}

const KITCHEN_DOCUMENT: &str = "{\"availability_topic\":\"snapnode/availability\",\"command_topic\":\"snapnode/100/command\",\"icon\":\"mdi:cast-audio\",\"name\":\"Kitchen\",\"payload_available\":\"ON\",\"payload_not_available\":\"OFF\",\"state_topic\":\"snapnode/100/state\",\"unique_id\":100}";

#[test]
fn announcement_goes_to_the_discovery_topic_retained() {
    let message = announce("homeassistant", "snapnode", &device("Kitchen", 100, "10.0.0.5")).unwrap();
    assert_eq!(message.topic, "homeassistant/switch/snapnode/100/config");
    assert_eq!(message.qos, QoS::AtLeastOnce);
    assert!(message.retained);
}

#[test]
fn announcement_document_is_the_json_object_of_the_device() {
    let message = announce("homeassistant", "snapnode", &device("Kitchen", 100, "10.0.0.5")).unwrap();
    assert_eq!(String::from_utf8(message.payload).unwrap(), KITCHEN_DOCUMENT);
}

#[test]
fn announcement_document_has_exactly_the_eight_members() {
    let message = announce("ha", "snapnode", &device("Kitchen", 100, "10.0.0.5")).unwrap();
    let value: serde_json::Value = serde_json::from_slice(&message.payload).unwrap();
    let object = value.as_object().unwrap();
    assert_eq!(object.len(), 8);
    assert_eq!(object["icon"].as_str(), Some("mdi:cast-audio"));
    assert_eq!(object["name"].as_str(), Some("Kitchen"));
    assert_eq!(object["state_topic"].as_str(), Some("snapnode/100/state"));
    assert_eq!(object["command_topic"].as_str(), Some("snapnode/100/command"));
    assert_eq!(object["availability_topic"].as_str(), Some("snapnode/availability"));
    assert_eq!(object["payload_available"].as_str(), Some("ON"));
    assert_eq!(object["payload_not_available"].as_str(), Some("OFF"));
    assert!(object["unique_id"].is_u64());
    assert_eq!(object["unique_id"].as_u64(), Some(100));
}

#[test]
fn announcement_document_escapes_the_name() {
    let message = announce("ha", "snapnode", &device("Liv\"ing\\ room\n", 7, "10.0.0.5")).unwrap();
    let value: serde_json::Value = serde_json::from_slice(&message.payload).unwrap();
    assert_eq!(value["name"].as_str(), Some("Liv\"ing\\ room\n"));
    assert_eq!(value["unique_id"].as_u64(), Some(7));
    let text = String::from_utf8(message.payload).unwrap();
    assert!(text.contains("\"name\":\"Liv\\\"ing\\\\ room\\n\""));
}

#[test]
fn announcement_takes_the_document_as_it_was_written() {
    let message = announcement("t/config".to_string(), 5, Ok(b"{}".to_vec()));
    assert_eq!(message, Ok(retained("t/config", b"{}")));
}

#[test]
fn announcement_fails_where_the_document_was_not_written() {
    let failure = serde_json::from_str::<serde_json::Value>("{").unwrap_err();
    let message = announcement("t/config".to_string(), 5, Err(failure));
    assert_eq!(message, Err(DiscoveryError { instance_id: 5 }));
}

#[test]
fn last_will_reports_the_node_unavailable() {
    assert_eq!(last_will("snapnode"), retained("snapnode/availability", b"OFF"));
}

#[test]
fn startup_without_devices_only_signals_availability() {
    let started = startup(&config(None, vec![])).unwrap();
    assert_eq!(
        started.actions,
        vec![StartupAction::SignalAvailability(retained("snapnode/availability", b"ON"))]
    );
    let mut router = started.router;
    assert_eq!(router.len(), 0);
    assert!(!router.is_serving());
}

#[test]
fn startup_announces_subscribes_and_resets_each_device_in_order() {
    let started = startup(&config(
        None,
        vec![device("Kitchen", 100, "10.0.0.5"), device("Bath", 101, "10.0.0.6")],
    ))
    .unwrap();
    assert_eq!(started.actions.len(), 7);
    assert_eq!(
        started.actions[0],
        StartupAction::Announce(retained(
            "homeassistant/switch/snapnode/100/config",
            KITCHEN_DOCUMENT.as_bytes()
        ))
    );
    assert_eq!(
        started.actions[1],
        StartupAction::Subscribe {
            topic: "snapnode/100/command".to_string(),
            qos: QoS::AtLeastOnce
        }
    );
    assert_eq!(
        started.actions[2],
        StartupAction::ResetState(retained("snapnode/100/state", b"OFF"))
    );
    match &started.actions[3] {
        StartupAction::Announce(message) => {
            assert_eq!(message.topic, "homeassistant/switch/snapnode/101/config");
            let value: serde_json::Value = serde_json::from_slice(&message.payload).unwrap();
            assert_eq!(value["name"].as_str(), Some("Bath"));
            assert_eq!(value["unique_id"].as_u64(), Some(101));
        }
        other => panic!("{:?}", other),
    }
    assert_eq!(
        started.actions[4],
        StartupAction::Subscribe {
            topic: "snapnode/101/command".to_string(),
            qos: QoS::AtLeastOnce
        }
    );
    assert_eq!(
        started.actions[5],
        StartupAction::ResetState(retained("snapnode/101/state", b"OFF"))
    );
    assert_eq!(
        started.actions[6],
        StartupAction::SignalAvailability(retained("snapnode/availability", b"ON"))
    );
}

#[test]
fn startup_uses_the_configured_discovery_prefix() {
    let started = startup(&config(Some("discover"), vec![device("Kitchen", 100, "10.0.0.5")])).unwrap();
    match &started.actions[0] {
        StartupAction::Announce(message) => {
            assert_eq!(message.topic, "discover/switch/snapnode/100/config")
        }
        other => panic!("{:?}", other),
    }
}

#[test]
fn startup_registers_a_disconnected_connector_for_each_device() {
    let started = startup(&config(
        None,
        vec![device("Kitchen", 100, "10.0.0.5"), device("Bath", 101, "10.0.0.6")],
    ))
    .unwrap();
    let router = started.router;
    assert_eq!(router.len(), 2);
    let kitchen = router.connector("snapnode/100/command").unwrap();
    assert_eq!(kitchen.phase(), Phase::Disconnected);
    assert_eq!(kitchen.state_topic, "snapnode/100/state");
    let bath = router.connector("snapnode/101/command").unwrap();
    assert_eq!(bath.phase(), Phase::Disconnected);
    assert_eq!(bath.state_topic, "snapnode/101/state");
    assert!(router.connector("snapnode/102/command").is_none());
}

#[test]
fn startup_gives_a_repeated_number_to_the_later_device() {
    let started = startup(&config(
        None,
        vec![device("Kitchen", 100, "10.0.0.5"), device("Bath", 100, "10.0.0.6")],
    ))
    .unwrap();
    assert_eq!(started.actions.len(), 7);
    let mut router = started.router;
    assert_eq!(router.len(), 1);
    router.handle_message("snapnode/100/command", b"ON");
    router.advance(airplay_bridge::connect_airplay::Outcome::Started(1));
    match router.advance(airplay_bridge::connect_airplay::Outcome::Completed) {
        airplay_bridge::router::Dispatch::Perform(
            airplay_bridge::connect_airplay::Action::Settle { millis },
        ) => assert_eq!(millis, 5000),
        other => panic!("{:?}", other),
    }
    match router.advance(airplay_bridge::connect_airplay::Outcome::Completed) {
        airplay_bridge::router::Dispatch::Perform(
            airplay_bridge::connect_airplay::Action::StartClient { arguments, .. },
        ) => assert_eq!(arguments[3], "10.0.0.6"),
        other => panic!("{:?}", other),
    }
}
