//! The configuration of a node: the broker it talks to and its devices.

use vstd::prelude::*;

verus! {

/// The configuration of a node.
#[derive(Clone, Debug)]
pub struct Config {
    /// The first part of the topics on which devices are announced; where it
    /// is missing, `homeassistant` takes its place.
    pub discovery_prefix: Option<String>,
    /// The name of the node: its name towards the broker and the first part
    /// of its topics.
    pub node_id: String,
    pub mqtt_host: String,
    /// The broker's port; where it is missing, [`DEFAULT_MQTT_PORT`] takes
    /// its place.
    pub mqtt_port: Option<u16>,
    pub mqtt_user: String,
    pub mqtt_pass: String,
    pub devices: Vec<AudioDevice>,
}

/// A device that audio can be cast to.
#[derive(Clone, Debug)]
pub enum AudioDevice {
    Airplay {
        /// The name under which the device is shown.
        name: String,
        /// The number of the device within its node: part of its topics, and
        /// its session number towards the streaming client.
        instance_id: usize,
        /// The network address of the device.
        ip_addr: String,
    },
}

/// An [`AudioDevice`] as a mathematical value.
pub enum AudioDeviceView {
    Airplay { name: Seq<char>, instance_id: usize, ip_addr: Seq<char> },
}

impl View for AudioDevice {
    type V = AudioDeviceView;

    open spec fn view(&self) -> AudioDeviceView {
        match *self {
            AudioDevice::Airplay { name, instance_id, ip_addr } => AudioDeviceView::Airplay {
                name: name@,
                instance_id,
                ip_addr: ip_addr@,
            },
        }
    }
}

impl AudioDeviceView {
    pub open spec fn name(self) -> Seq<char> {
        match self {
            AudioDeviceView::Airplay { name, .. } => name,
        }
    }

    pub open spec fn instance_id(self) -> usize {
        match self {
            AudioDeviceView::Airplay { instance_id, .. } => instance_id,
        }
    }

    pub open spec fn ip_addr(self) -> Seq<char> {
        match self {
            AudioDeviceView::Airplay { ip_addr, .. } => ip_addr,
        }
    }
}

/// A [`Config`] as a mathematical value.
pub struct ConfigView {
    pub discovery_prefix: Option<Seq<char>>,
    pub node_id: Seq<char>,
    pub mqtt_host: Seq<char>,
    pub mqtt_port: Option<u16>,
    pub mqtt_user: Seq<char>,
    pub mqtt_pass: Seq<char>,
    pub devices: Seq<AudioDeviceView>,
}

/// The view of an optional text.
pub open spec fn text_of(text: Option<String>) -> Option<Seq<char>> {
    match text {
        Some(text) => Some(text@),
        None => None,
    }
}

impl View for Config {
    type V = ConfigView;

    open spec fn view(&self) -> ConfigView {
        ConfigView {
            discovery_prefix: text_of(self.discovery_prefix),
            node_id: self.node_id@,
            mqtt_host: self.mqtt_host@,
            mqtt_port: self.mqtt_port,
            mqtt_user: self.mqtt_user@,
            mqtt_pass: self.mqtt_pass@,
            devices: self.devices@.map_values(|device: AudioDevice| device@),
        }
    }
}

/// The broker's port where the configuration names none.
pub const DEFAULT_MQTT_PORT: u16 = 1883;

/// The discovery prefix where the configuration names none.
pub open spec fn default_discovery_prefix() -> Seq<char> {
    "homeassistant"@
}

impl ConfigView {
    /// The port on which the broker is reached.
    pub open spec fn port(self) -> u16 {
        match self.mqtt_port {
            Some(port) => port,
            None => DEFAULT_MQTT_PORT,
        }
    }

    /// The first part of the topics on which devices are announced.
    pub open spec fn prefix(self) -> Seq<char> {
        match self.discovery_prefix {
            Some(prefix) => prefix,
            None => default_discovery_prefix(),
        }
    }
}

impl Config {
    /// The port on which the broker is reached.
    pub fn port(&self) -> (port: u16)
        ensures
            port == self@.port(),
    {
        match self.mqtt_port {
            Some(port) => port,
            None => DEFAULT_MQTT_PORT,
        }
    }

    /// The first part of the topics on which devices are announced.
    pub fn prefix(&self) -> (prefix: &str)
        ensures
            prefix@ == self@.prefix(),
    {
        match &self.discovery_prefix {
            Some(prefix) => prefix.as_str(),
            None => "homeassistant",
        }
    }
}

/// The number of `device` within its node.
pub fn get_device_id(device: &AudioDevice) -> (instance_id: usize)
    ensures
        instance_id == device@.instance_id(),
{
    match device {
        AudioDevice::Airplay { instance_id, .. } => *instance_id,
    }
}

/// The name under which `device` is shown.
pub fn get_device_name<'a>(device: &'a &AudioDevice) -> (name: &'a str)
    ensures
        name@ == device@.name(),
{
    match device {
        AudioDevice::Airplay { name, .. } => name.as_str(),
    }
}

/// The network address of `device`.
pub fn get_device_address(device: &AudioDevice) -> (ip_addr: &str)
    ensures
        ip_addr@ == device@.ip_addr(),
{
    match device {
        AudioDevice::Airplay { ip_addr, .. } => ip_addr.as_str(),
    }
}

} // verus!
