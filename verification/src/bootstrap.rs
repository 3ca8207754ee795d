//! What a node does when it starts: it announces each device, subscribes to
//! its commands and reports it off, and at last reports itself available.

use crate::bus::{state_message, state_report, Publish, PublishView, QoS, Switch};
use crate::config_types::{
    get_device_address, get_device_id, AudioDeviceView, Config, ConfigView,
};
use crate::connect_airplay::{AirplayConnector, ConnectorView, Phase};
use crate::discovery::{announce, discovery_message, DiscoveryError};
use crate::router::{Router, RouterView};
use crate::service::consistent;
use crate::topics::{
    availability_topic, command_topic, get_availability_topic, get_command_topic, get_state_topic,
    lemma_command_topics_differ, state_topic,
};
use vstd::prelude::*;

verus! {

/// Something for the caller to do on the bus at startup.
#[derive(Debug, PartialEq, Eq)]
pub enum StartupAction {
    /// Publish the announcement of a device.
    Announce(Publish),
    /// Subscribe to the commands of a device.
    Subscribe { topic: String, qos: QoS },
    /// Publish that a device is off.
    ResetState(Publish),
    /// Publish that the node is available.
    SignalAvailability(Publish),
}

/// A [`StartupAction`] as a mathematical value.
pub enum StartupActionView {
    Announce(PublishView),
    Subscribe { topic: Seq<char>, qos: QoS },
    ResetState(PublishView),
    SignalAvailability(PublishView),
}

impl View for StartupAction {
    type V = StartupActionView;

    open spec fn view(&self) -> StartupActionView {
        match *self {
            StartupAction::Announce(message) => StartupActionView::Announce(message@),
            StartupAction::Subscribe { topic, qos } => StartupActionView::Subscribe {
                topic: topic@,
                qos,
            },
            StartupAction::ResetState(message) => StartupActionView::ResetState(message@),
            StartupAction::SignalAvailability(message) => StartupActionView::SignalAvailability(
                message@,
            ),
        }
    }
}

/// A node ready to serve: its router, and what is to be done on the bus
/// before the first message is taken, in this order.
#[derive(Debug)]
pub struct Startup {
    pub router: Router,
    pub actions: Vec<StartupAction>,
}

/// The views of `actions`.
pub open spec fn action_views(actions: Seq<StartupAction>) -> Seq<StartupActionView> {
    actions.map_values(|action: StartupAction| action@)
}

/// The connector that `device` of the node `node_id` starts with.
pub open spec fn connector_of(node_id: Seq<char>, device: AudioDeviceView) -> ConnectorView {
    ConnectorView {
        ip: device.ip_addr(),
        state_topic: state_topic(node_id, device.instance_id() as nat),
        client_id: device.instance_id(),
        phase: Phase::Disconnected,
    }
}

/// Whether the announcement of the device at `i` can be written.
pub open spec fn writable(config: ConfigView, i: int) -> bool {
    discovery_message(config.prefix(), config.node_id, config.devices[i]) is Ok
}

/// What is to be done for `device`: it is announced, its commands are
/// subscribed to, and it is reported off.
pub open spec fn device_actions(config: ConfigView, device: AudioDeviceView) -> Seq<
    StartupActionView,
> {
    let instance_id = device.instance_id() as nat;
    seq![
        StartupActionView::Announce(
            discovery_message(config.prefix(), config.node_id, device)->Ok_0,
        ),
        StartupActionView::Subscribe {
            topic: command_topic(config.node_id, instance_id),
            qos: QoS::AtLeastOnce,
        },
        StartupActionView::ResetState(
            state_message(state_topic(config.node_id, instance_id), Switch::Off),
        ),
    ]
}

/// What is to be done for the first `count` devices, device by device.
pub open spec fn devices_actions(config: ConfigView, count: int) -> Seq<StartupActionView>
    decreases count,
{
    if count <= 0 {
        Seq::empty()
    } else {
        devices_actions(config, count - 1) + device_actions(config, config.devices[count - 1])
    }
}

/// The connectors of the first `count` devices by command topic. Where two
/// devices have one number, the later one has the topic.
pub open spec fn registry(config: ConfigView, count: int) -> Map<Seq<char>, ConnectorView>
    decreases count,
{
    if count <= 0 {
        Map::empty()
    } else {
        let device = config.devices[count - 1];
        registry(config, count - 1).insert(
            command_topic(config.node_id, device.instance_id() as nat),
            connector_of(config.node_id, device),
        )
    }
}

/// All that is to be done at startup: what is to be done for the devices,
/// then the node is reported available.
pub open spec fn startup_actions(config: ConfigView) -> Seq<StartupActionView> {
    devices_actions(config, config.devices.len() as int).push(
        StartupActionView::SignalAvailability(
            state_message(availability_topic(config.node_id), Switch::On),
        ),
    )
}

/// A node starts at rest: each of its connectors is disconnected, and it
/// serves no command.
pub proof fn lemma_startup_is_at_rest(config: ConfigView, count: int)
    ensures
        forall|topic: Seq<char>| #[trigger]
            registry(config, count).dom().contains(topic) ==> registry(
                config,
                count,
            )[topic].phase is Disconnected,
        consistent(RouterView { connectors: registry(config, count), serving: None }),
    decreases count,
{
    if count > 0 {
        lemma_startup_is_at_rest(config, count - 1);
    }
}

/// Where no two devices have one number, each device has a connector of its
/// own: the connector under its command topic is the one made for it.
pub proof fn lemma_each_device_is_registered(config: ConfigView, count: int, i: int)
    requires
        0 <= i < count <= config.devices.len(),
        forall|j: int, k: int|
            0 <= j < count && 0 <= k < count && j != k ==> config.devices[j].instance_id()
                != config.devices[k].instance_id(),
    ensures
        registry(config, count).dom().contains(
            command_topic(config.node_id, config.devices[i].instance_id() as nat),
        ),
        registry(config, count)[command_topic(
            config.node_id,
            config.devices[i].instance_id() as nat,
        )] == connector_of(config.node_id, config.devices[i]),
    decreases count,
{
    if i < count - 1 {
        lemma_each_device_is_registered(config, count - 1, i);
        lemma_command_topics_differ(
            config.node_id,
            config.devices[i].instance_id() as nat,
            config.devices[count - 1].instance_id() as nat,
        );
    }
}

/// The message that the broker is to publish for the node `node_id` when it
/// loses the node: that the node is not available.
pub fn last_will(node_id: &str) -> (message: Publish)
    ensures
        message@ == state_message(availability_topic(node_id@), Switch::Off),
{
    state_report(get_availability_topic(node_id).as_str(), Switch::Off)
}

/// Makes the router of the node that `config` describes, with a disconnected
/// connector for each device, and lists what is to be done on the bus.
///
/// It fails where the announcement of a device cannot be written, with the
/// first such device.
pub fn startup(config: &Config) -> (started: Result<Startup, DiscoveryError>)
    ensures
        match started {
            Ok(startup) => {
                &&& forall|i: int| 0 <= i < config@.devices.len() ==> writable(config@, i)
                &&& action_views(startup.actions@) == startup_actions(config@)
                &&& startup.router.wf()
                &&& startup.router@ == (RouterView {
                    connectors: registry(config@, config@.devices.len() as int),
                    serving: None,
                })
            },
            Err(error) => exists|i: int|
                {
                    &&& 0 <= i < config@.devices.len()
                    &&& !writable(config@, i)
                    &&& forall|j: int| 0 <= j < i ==> writable(config@, j)
                    &&& error.instance_id == config@.devices[i].instance_id()
                },
        },
{
    let node_id = config.node_id.as_str();
    let mut router = Router::new();
    let mut actions: Vec<StartupAction> = Vec::new();
    let mut i: usize = 0;
    assert(action_views(actions@) =~= devices_actions(config@, 0));
    while i < config.devices.len()
        invariant
            i <= config.devices.len(),
            node_id@ == config@.node_id,
            forall|j: int| 0 <= j < i ==> writable(config@, j),
            action_views(actions@) == devices_actions(config@, i as int),
            router.wf(),
            router@ == (RouterView { connectors: registry(config@, i as int), serving: None }),
        decreases config.devices.len() - i,
    {
        let device = &config.devices[i];
        assert(config@.devices[i as int] == device@);
        let instance_id = get_device_id(device);
        let announcement = match announce(config.prefix(), node_id, device) {
            Ok(announcement) => announcement,
            Err(error) => {
                assert(!writable(config@, i as int));
                assert(error.instance_id == config@.devices[i as int].instance_id());
                return Err(error);
            },
        };
        let command_topic = get_command_topic(node_id, instance_id);
        let state_topic = get_state_topic(node_id, instance_id);
        let ghost before = action_views(actions@);
        actions.push(StartupAction::Announce(announcement));
        actions.push(
            StartupAction::Subscribe { topic: command_topic.clone(), qos: QoS::AtLeastOnce },
        );
        actions.push(StartupAction::ResetState(state_report(state_topic.as_str(), Switch::Off)));
        assert(action_views(actions@) =~= before + device_actions(config@, device@));
        let connector = AirplayConnector::new(
            String::from_str(get_device_address(device)),
            instance_id,
            state_topic,
        );
        router.insert(command_topic, connector);
        i += 1;
    }
    let ghost before = action_views(actions@);
    actions.push(
        StartupAction::SignalAvailability(
            state_report(get_availability_topic(node_id).as_str(), Switch::On),
        ),
    );
    assert(action_views(actions@) =~= startup_actions(config@));
    Ok(Startup { router, actions })
}

} // verus!
