//! What goes over the message bus: the two switch positions as payloads, and
//! messages to publish.

use crate::connect_airplay::ConnectError;
use vstd::prelude::*;

verus! {

/// The position of a device's switch: as a command what is asked for, as a
/// state what is the case.
#[derive(Clone, Copy, Debug, PartialEq, Eq, Structural)]
pub enum Switch {
    On,
    Off,
}

/// How surely the bus delivers a message.
#[derive(Clone, Copy, Debug, PartialEq, Eq, Structural)]
pub enum QoS {
    AtMostOnce,
    AtLeastOnce,
    ExactlyOnce,
}

/// A message to publish.
#[derive(Clone, Debug, PartialEq, Eq)]
pub struct Publish {
    pub topic: String,
    pub qos: QoS,
    /// Whether the bus keeps the message for those who subscribe later.
    pub retained: bool,
    pub payload: Vec<u8>,
}

/// A [`Publish`] as a mathematical value.
pub struct PublishView {
    pub topic: Seq<char>,
    pub qos: QoS,
    pub retained: bool,
    pub payload: Seq<u8>,
}

impl View for Publish {
    type V = PublishView;

    open spec fn view(&self) -> PublishView {
        PublishView {
            topic: self.topic@,
            qos: self.qos,
            retained: self.retained,
            payload: self.payload@,
        }
    }
}

/// The payload of `switch`: the ASCII text `ON` or `OFF`.
pub open spec fn switch_payload(switch: Switch) -> Seq<u8> {
    match switch {
        Switch::On => seq![0x4fu8, 0x4eu8],
        Switch::Off => seq![0x4fu8, 0x46u8, 0x46u8],
    }
}

/// The command that `payload` carries: `On` for exactly `ON`, `Off` for
/// exactly `OFF`, none for anything else.
pub open spec fn command_of(payload: Seq<u8>) -> Option<Switch> {
    if payload == switch_payload(Switch::On) {
        Some(Switch::On)
    } else if payload == switch_payload(Switch::Off) {
        Some(Switch::Off)
    } else {
        None
    }
}

/// The state to report once `command` was served with `result`: what was
/// asked for where it succeeded, the opposite where it failed.
pub open spec fn state_after(command: Switch, result: Result<(), ConnectError>) -> Switch {
    match (command, result) {
        (Switch::On, Ok(_)) => Switch::On,
        (Switch::On, Err(_)) => Switch::Off,
        (Switch::Off, Ok(_)) => Switch::Off,
        (Switch::Off, Err(_)) => Switch::On,
    }
}

/// The message that reports `state` on `topic`: retained, and delivered at
/// least once.
pub open spec fn state_message(topic: Seq<char>, state: Switch) -> PublishView {
    PublishView { topic, qos: QoS::AtLeastOnce, retained: true, payload: switch_payload(state) }
}

/// Writes the payload of `switch`.
pub fn payload_of(switch: Switch) -> (payload: Vec<u8>)
    ensures
        payload@ == switch_payload(switch),
{
    let mut payload: Vec<u8> = Vec::new();
    match switch {
        Switch::On => {
            payload.push(0x4f);
            payload.push(0x4e);
        },
        Switch::Off => {
            payload.push(0x4f);
            payload.push(0x46);
            payload.push(0x46);
        },
    }
    assert(payload@ =~= switch_payload(switch));
    payload
}

/// Reads the command that `payload` carries.
pub fn parse_command(payload: &[u8]) -> (command: Option<Switch>)
    ensures
        command == command_of(payload@),
{
    if payload.len() == 2 && payload[0] == 0x4f && payload[1] == 0x4e {
        assert(payload@ =~= switch_payload(Switch::On));
        Some(Switch::On)
    } else if payload.len() == 3 && payload[0] == 0x4f && payload[1] == 0x46 && payload[2] == 0x46 {
        assert(payload@ =~= switch_payload(Switch::Off));
        Some(Switch::Off)
    } else {
        None
    }
}

/// Decides the state to report once `command` was served with `result`.
pub fn reported_state(command: Switch, result: Result<(), ConnectError>) -> (state: Switch)
    ensures
        state == state_after(command, result),
{
    match (command, result) {
        (Switch::On, Ok(_)) => Switch::On,
        (Switch::On, Err(_)) => Switch::Off,
        (Switch::Off, Ok(_)) => Switch::Off,
        (Switch::Off, Err(_)) => Switch::On,
    }
}

/// Makes the message that reports `state` on `topic`.
pub fn state_report(topic: &str, state: Switch) -> (message: Publish)
    ensures
        message@ == state_message(topic@, state),
{
    Publish {
        topic: String::from_str(topic),
        qos: QoS::AtLeastOnce,
        retained: true,
        payload: payload_of(state),
    }
}

} // verus!
