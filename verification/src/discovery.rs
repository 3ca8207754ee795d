//! The document that announces a device to the home-automation system: a
//! JSON object, written by `serde_json`.

use crate::bus::{Publish, PublishView, QoS};
use crate::config_types::{get_device_id, get_device_name, AudioDevice, AudioDeviceView};
use crate::topics::{
    availability_topic, command_topic, discovery_topic, get_availability_topic, get_command_topic,
    get_discovery_topic, get_state_topic, state_topic,
};
use vstd::prelude::*;

verus! {

/// What a member of a JSON object holds here: a text or a number.
pub enum JsonScalar {
    Text(Seq<char>),
    Number(nat),
}

/// The members of an object that has none.
pub open spec fn no_members() -> Map<Seq<char>, JsonScalar> {
    Map::empty()
}

/// `serde_json::Map`: a JSON object. Nothing is known of what is in one but
/// through [`json_members`].
#[verifier::external_type_specification]
#[verifier::external_body]
#[verifier::reject_recursive_types(K)]
#[verifier::reject_recursive_types(V)]
pub struct ExJsonMap<K, V>(serde_json::Map<K, V>);

/// `serde_json::Value`: what a member of a JSON object holds.
#[verifier::external_type_specification]
#[verifier::external_body]
pub struct ExJsonValue(serde_json::Value);

/// `serde_json::Error`: why a JSON text could not be written or read.
#[verifier::external_type_specification]
#[verifier::external_body]
pub struct ExJsonError(serde_json::Error);

/// The members of a JSON object, by key: a text for a member that holds a
/// string, a number for one that holds a number without sign.
pub uninterp spec fn json_members(object: serde_json::Map<String, serde_json::Value>) -> Map<
    Seq<char>,
    JsonScalar,
>;

/// The JSON text that `serde_json::to_vec` writes for an object with these
/// members, or `None` where it fails.
pub uninterp spec fn json_text(members: Map<Seq<char>, JsonScalar>) -> Option<Seq<u8>>;

/// `serde_json::Map::new`: an object without members.
#[verifier::external_body]
fn new_object() -> (object: serde_json::Map<String, serde_json::Value>)
    ensures
        json_members(object) == no_members(),
{
    serde_json::Map::new()
}

/// `serde_json::Map::insert`, with the text made a value by `Value::from`:
/// afterwards the object holds `text` under `key`, in place of what it held
/// there, and its other members as before.
#[verifier::external_body]
fn put_text(object: &mut serde_json::Map<String, serde_json::Value>, key: &str, text: &str)
    ensures
        json_members(*final(object)) == json_members(*old(object)).insert(
            key@,
            JsonScalar::Text(text@),
        ),
{
    object.insert(key.to_owned(), serde_json::Value::from(text));
}

/// `serde_json::Map::insert`, with the number made a value by `Value::from`:
/// afterwards the object holds `number` under `key`, in place of what it held
/// there, and its other members as before.
#[verifier::external_body]
fn put_number(object: &mut serde_json::Map<String, serde_json::Value>, key: &str, number: usize)
    ensures
        json_members(*final(object)) == json_members(*old(object)).insert(
            key@,
            JsonScalar::Number(number as nat),
        ),
{
    object.insert(key.to_owned(), serde_json::Value::from(number));
}

/// `serde_json::to_vec` on the object as a value: its JSON text. The object
/// keeps its members in the order of their keys, so the text is given by the
/// members alone.
#[verifier::external_body]
fn write_object(object: serde_json::Map<String, serde_json::Value>) -> (written: Result<
    Vec<u8>,
    serde_json::Error,
>)
    ensures
        match written {
            Ok(bytes) => json_text(json_members(object)) == Some(bytes@),
            Err(_) => json_text(json_members(object)) is None,
        },
{
    serde_json::to_vec(&serde_json::Value::Object(object))
}

/// The document of a device could not be written.
#[derive(Clone, Copy, Debug, PartialEq, Eq, Structural)]
pub struct DiscoveryError {
    /// The number of the device within its node.
    pub instance_id: usize,
}

/// The icon under which a device is shown.
pub open spec fn device_icon() -> Seq<char> {
    "mdi:cast-audio"@
}

/// The members of the document that announces `device` of the node
/// `node_id`.
pub open spec fn discovery_members(node_id: Seq<char>, device: AudioDeviceView) -> Map<
    Seq<char>,
    JsonScalar,
> {
    let instance_id = device.instance_id() as nat;
    map![
        "icon"@ => JsonScalar::Text(device_icon()),
        "name"@ => JsonScalar::Text(device.name()),
        "state_topic"@ => JsonScalar::Text(state_topic(node_id, instance_id)),
        "command_topic"@ => JsonScalar::Text(command_topic(node_id, instance_id)),
        "availability_topic"@ => JsonScalar::Text(availability_topic(node_id)),
        "payload_available"@ => JsonScalar::Text("ON"@),
        "payload_not_available"@ => JsonScalar::Text("OFF"@),
        "unique_id"@ => JsonScalar::Number(instance_id),
    ]
}

/// The message that carries `document` as the announcement of the device
/// `instance_id`, or the error where no document could be written: it goes to
/// `topic`, retained, and is delivered at least once.
pub open spec fn announcement_of(
    topic: Seq<char>,
    instance_id: usize,
    document: Option<Seq<u8>>,
) -> Result<PublishView, DiscoveryError> {
    match document {
        Some(payload) => Ok(PublishView { topic, qos: QoS::AtLeastOnce, retained: true, payload }),
        None => Err(DiscoveryError { instance_id }),
    }
}

/// The message that announces `device` of the node `node_id` under the
/// discovery prefix `prefix`.
pub open spec fn discovery_message(
    prefix: Seq<char>,
    node_id: Seq<char>,
    device: AudioDeviceView,
) -> Result<PublishView, DiscoveryError> {
    announcement_of(
        discovery_topic(prefix, node_id, device.instance_id() as nat),
        device.instance_id(),
        json_text(discovery_members(node_id, device)),
    )
}

/// What was written, or nothing.
pub open spec fn written_bytes(written: Result<Vec<u8>, serde_json::Error>) -> Option<Seq<u8>> {
    match written {
        Ok(bytes) => Some(bytes@),
        Err(_) => None,
    }
}

/// The view of a message or an error.
pub open spec fn message_view(message: Result<Publish, DiscoveryError>) -> Result<
    PublishView,
    DiscoveryError,
> {
    match message {
        Ok(message) => Ok(message@),
        Err(error) => Err(error),
    }
}

/// Makes the announcement of the device `instance_id` from what came of
/// writing its document.
pub fn announcement(
    topic: String,
    instance_id: usize,
    written: Result<Vec<u8>, serde_json::Error>,
) -> (message: Result<Publish, DiscoveryError>)
    ensures
        message_view(message) == announcement_of(topic@, instance_id, written_bytes(written)),
{
    match written {
        Ok(payload) => Ok(Publish { topic, qos: QoS::AtLeastOnce, retained: true, payload }),
        Err(_) => Err(DiscoveryError { instance_id }),
    }
}

/// Writes the message that announces `device` of the node `node_id` under
/// the discovery prefix `prefix`.
pub fn announce(prefix: &str, node_id: &str, device: &AudioDevice) -> (message: Result<
    Publish,
    DiscoveryError,
>)
    ensures
        message_view(message) == discovery_message(prefix@, node_id@, device@),
{
    let instance_id = get_device_id(device);
    let mut object = new_object();
    put_text(&mut object, "icon", "mdi:cast-audio");
    put_text(&mut object, "name", get_device_name(&device));
    put_text(&mut object, "state_topic", get_state_topic(node_id, instance_id).as_str());
    put_text(&mut object, "command_topic", get_command_topic(node_id, instance_id).as_str());
    put_text(&mut object, "availability_topic", get_availability_topic(node_id).as_str());
    put_text(&mut object, "payload_available", "ON");
    put_text(&mut object, "payload_not_available", "OFF");
    put_number(&mut object, "unique_id", instance_id);
    let written = write_object(object);
    announcement(get_discovery_topic(prefix, node_id, instance_id), instance_id, written)
}

} // verus!
