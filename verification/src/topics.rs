//! Names of the bus topics of a node and of its devices.

use vstd::prelude::*;

verus! {

/// The character that writes the digit `d`.
pub open spec fn digit_char(d: nat) -> char
    recommends
        d < 10,
{
    if d == 0 {
        '0'
    } else if d == 1 {
        '1'
    } else if d == 2 {
        '2'
    } else if d == 3 {
        '3'
    } else if d == 4 {
        '4'
    } else if d == 5 {
        '5'
    } else if d == 6 {
        '6'
    } else if d == 7 {
        '7'
    } else if d == 8 {
        '8'
    } else {
        '9'
    }
}

/// The decimal numeral of `n`: no sign, no leading zero, `"0"` for zero.
pub open spec fn decimal(n: nat) -> Seq<char>
    decreases n,
{
    if n < 10 {
        seq![digit_char(n)]
    } else {
        decimal(n / 10).push(digit_char(n % 10))
    }
}

/// `"{node_id}/{instance_id}/state"`, where a device reports whether it is on.
pub open spec fn state_topic(node_id: Seq<char>, instance_id: nat) -> Seq<char> {
    node_id + "/"@ + decimal(instance_id) + "/state"@
}

/// `"{node_id}/{instance_id}/command"`, where a device is told to turn on or off.
pub open spec fn command_topic(node_id: Seq<char>, instance_id: nat) -> Seq<char> {
    node_id + "/"@ + decimal(instance_id) + "/command"@
}

/// `"{node_id}/availability"`, where the node reports whether it is reachable.
pub open spec fn availability_topic(node_id: Seq<char>) -> Seq<char> {
    node_id + "/availability"@
}

/// `"{prefix}/switch/{node_id}/{instance_id}/config"`, where a device is
/// announced to the home-automation system.
pub open spec fn discovery_topic(prefix: Seq<char>, node_id: Seq<char>, instance_id: nat) -> Seq<
    char,
> {
    prefix + "/switch/"@ + node_id + "/"@ + decimal(instance_id) + "/config"@
}

/// Different numbers have different numerals.
pub proof fn lemma_decimal_is_injective(a: nat, b: nat)
    requires
        decimal(a) == decimal(b),
    ensures
        a == b,
    decreases a,
{
    lemma_decimal_is_not_empty(a / 10);
    lemma_decimal_is_not_empty(b / 10);
    if a < 10 && b < 10 {
        assert(decimal(a)[0] == digit_char(a));
        assert(decimal(b)[0] == digit_char(b));
    } else if a >= 10 && b >= 10 {
        let front_a = decimal(a / 10);
        let front_b = decimal(b / 10);
        assert(decimal(a).last() == digit_char(a % 10));
        assert(decimal(b).last() == digit_char(b % 10));
        assert(a % 10 == b % 10);
        assert(front_a =~= decimal(a).drop_last());
        assert(front_b =~= decimal(b).drop_last());
        lemma_decimal_is_injective(a / 10, b / 10);
    } else if a < 10 {
        assert(decimal(a).len() == 1);
        assert(decimal(b).len() == decimal(b / 10).len() + 1);
    } else {
        assert(decimal(b).len() == 1);
        assert(decimal(a).len() == decimal(a / 10).len() + 1);
    }
}

/// A numeral has at least one digit.
pub proof fn lemma_decimal_is_not_empty(n: nat)
    ensures
        decimal(n).len() >= 1,
    decreases n,
{
    if n >= 10 {
        lemma_decimal_is_not_empty(n / 10);
    }
}

/// Devices of one node with different numbers have different command topics.
pub proof fn lemma_command_topics_differ(node_id: Seq<char>, a: nat, b: nat)
    requires
        a != b,
    ensures
        command_topic(node_id, a) != command_topic(node_id, b),
{
    let front = node_id + "/"@;
    let back = "/command"@;
    let one = command_topic(node_id, a);
    let other = command_topic(node_id, b);
    if one == other {
        assert(one.len() == front.len() + decimal(a).len() + back.len());
        assert(other.len() == front.len() + decimal(b).len() + back.len());
        assert forall|i: int| 0 <= i < decimal(a).len() implies decimal(a)[i] == decimal(b)[i] by {
            assert(one[front.len() + i] == decimal(a)[i]);
            assert(other[front.len() + i] == decimal(b)[i]);
        }
        assert(decimal(a) =~= decimal(b));
        lemma_decimal_is_injective(a, b);
    }
}

fn digit_text(d: usize) -> (text: &'static str)
    requires
        d < 10,
    ensures
        text@ == seq![digit_char(d as nat)],
{
    proof {
        reveal_strlit("0");
        reveal_strlit("1");
        reveal_strlit("2");
        reveal_strlit("3");
        reveal_strlit("4");
        reveal_strlit("5");
        reveal_strlit("6");
        reveal_strlit("7");
        reveal_strlit("8");
        reveal_strlit("9");
    }
    let text = if d == 0 {
        "0"
    } else if d == 1 {
        "1"
    } else if d == 2 {
        "2"
    } else if d == 3 {
        "3"
    } else if d == 4 {
        "4"
    } else if d == 5 {
        "5"
    } else if d == 6 {
        "6"
    } else if d == 7 {
        "7"
    } else if d == 8 {
        "8"
    } else {
        "9"
    };
    assert(text@ =~= seq![digit_char(d as nat)]);
    text
}

/// Writes `n` as a decimal numeral.
pub fn decimal_text(n: usize) -> (text: String)
    ensures
        text@ == decimal(n as nat),
    decreases n,
{
    if n < 10 {
        String::from_str(digit_text(n))
    } else {
        let mut text = decimal_text(n / 10);
        text.append(digit_text(n % 10));
        text
    }
}

/// The topic on which the device `instance_id` of the node `node_id` reports
/// its state.
pub fn get_state_topic(node_id: &str, instance_id: usize) -> (topic: String)
    ensures
        topic@ == state_topic(node_id@, instance_id as nat),
{
    let mut topic = String::from_str(node_id);
    topic.append("/");
    topic.append(decimal_text(instance_id).as_str());
    topic.append("/state");
    topic
}

/// The topic on which the device `instance_id` of the node `node_id` takes
/// its commands.
pub fn get_command_topic(node_id: &str, instance_id: usize) -> (topic: String)
    ensures
        topic@ == command_topic(node_id@, instance_id as nat),
{
    let mut topic = String::from_str(node_id);
    topic.append("/");
    topic.append(decimal_text(instance_id).as_str());
    topic.append("/command");
    topic
}

/// The topic on which the node `node_id` reports its availability.
pub fn get_availability_topic(node_id: &str) -> (topic: String)
    ensures
        topic@ == availability_topic(node_id@),
{
    let mut topic = String::from_str(node_id);
    topic.append("/availability");
    topic
}

/// The topic on which the device `instance_id` of the node `node_id` is
/// announced under the discovery prefix `prefix`.
pub fn get_discovery_topic(prefix: &str, node_id: &str, instance_id: usize) -> (topic: String)
    ensures
        topic@ == discovery_topic(prefix@, node_id@, instance_id as nat),
{
    let mut topic = String::from_str(prefix);
    topic.append("/switch/");
    topic.append(node_id);
    topic.append("/");
    topic.append(decimal_text(instance_id).as_str());
    topic.append("/config");
    topic
}

} // verus!
