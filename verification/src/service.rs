//! What holds of every way a command can be served.
//!
//! A command is served by a loop in the caller, as a request to a connector
//! is: [`serve`] is that loop as a function of the outcomes that the caller
//! meets. It goes as the request to the command's connector goes, and the
//! laws of [`crate::lifecycle`] carry over to the state that is reported.

use crate::bus::{command_of, state_message, switch_payload, QoS, Switch};
use crate::connect_airplay::{
    disconnect_actions, ActionView, AirplayConnected, Outcome, Phase, StepView,
};
use crate::lifecycle::{
    connect_actions, connecting, disconnecting, lemma_connect_ends_at_rest,
    lemma_connect_succeeds, lemma_connecting_step, lemma_disconnect_order,
    lemma_disconnecting_step, lemma_run_in_service, lemma_run_keeps_device, run,
};
use crate::router::{report_of, DispatchView, RouterView};
use vstd::prelude::*;

verus! {

/// How the serving of a command went.
pub struct Service {
    /// The router afterwards.
    pub router: RouterView,
    /// The actions that were carried out, in their order.
    pub performed: Seq<ActionView>,
    /// The last answer: the first that was no action, or the action for which
    /// no outcome was left.
    pub last: DispatchView,
}

/// Serves a message from the router's first answer to it, `start`, as long
/// as `outcomes` lasts: the action of each answer is carried out, and goes as
/// the next outcome says.
pub open spec fn serve(start: (RouterView, DispatchView), outcomes: Seq<Outcome>) -> Service
    decreases outcomes.len(),
{
    match start.1 {
        DispatchView::Perform(action) => if outcomes.len() > 0 {
            let rest = serve(start.0.advance(outcomes[0]), outcomes.drop_first());
            Service { performed: seq![action] + rest.performed, ..rest }
        } else {
            Service { router: start.0, performed: Seq::empty(), last: start.1 }
        },
        _ => Service { router: start.0, performed: Seq::empty(), last: start.1 },
    }
}

/// The router's answer where the connector that serves `command`, and
/// reports its state on `state_topic`, answers `step`.
pub open spec fn answer_for(step: StepView, state_topic: Seq<char>, command: Switch) -> DispatchView {
    match step {
        StepView::Perform(action) => DispatchView::Perform(action),
        StepView::Finished(result) => report_of(state_topic, command, result),
        StepView::Refused => DispatchView::Refused,
    }
}

/// Whether a connector in `phase` can be serving `command`.
pub open spec fn in_service(phase: Phase, command: Switch) -> bool {
    match command {
        Switch::On => connecting(phase),
        Switch::Off => disconnecting(phase),
    }
}

/// Whether the command that `router` is serving came on `topic`.
pub open spec fn serves(router: RouterView, topic: Seq<char>) -> bool {
    match router.serving {
        Some((served, _)) => served == topic,
        None => false,
    }
}

/// Whether the router's parts agree: the connector of the command that is
/// being served is registered and on its way to where the command asks, and
/// every other connector is at rest.
pub open spec fn consistent(router: RouterView) -> bool {
    &&& router.serving matches Some((topic, command)) ==> {
        &&& router.connectors.dom().contains(topic)
        &&& in_service(router.connectors[topic].phase, command)
    }
    &&& forall|topic: Seq<char>| #[trigger]
        router.connectors.dom().contains(topic) ==> router.connectors[topic].at_rest()
            || serves(router, topic)
}

/// No call upsets a router whose parts agree, and no such router refuses a
/// call that fits: a message while it serves no command, an outcome while it
/// serves one.
pub proof fn lemma_consistency_is_kept(
    router: RouterView,
    topic: Seq<char>,
    payload: Seq<u8>,
    outcome: Outcome,
)
    requires
        consistent(router),
    ensures
        consistent(router.handle_message(topic, payload).0),
        consistent(router.advance(outcome).0),
        router.handle_message(topic, payload).1 is Refused <==> router.serving is Some,
        router.advance(outcome).1 is Refused <==> router.serving is None,
{
    if router.serving is Some {
        let (served, command) = router.serving->0;
        if connecting(router.connectors[served].phase) {
            lemma_connecting_step(router.connectors[served], outcome);
        } else {
            lemma_disconnecting_step(router.connectors[served], outcome);
        }
    }
}

/// A message on a topic under which no connector stands, or with a payload
/// that is no command, changes nothing, asks for no action and has nothing
/// reported.
pub proof fn lemma_stray_message(
    router: RouterView,
    topic: Seq<char>,
    payload: Seq<u8>,
    outcomes: Seq<Outcome>,
)
    requires
        !router.connectors.dom().contains(topic) || command_of(payload) is None,
    ensures
        ({
            let s = serve(router.handle_message(topic, payload), outcomes);
            &&& s.router == router
            &&& s.performed == Seq::<ActionView>::empty()
            &&& s.last is Ignored || s.last is Refused
            &&& router.serving is None ==> s.last is Ignored
        }),
{
}

/// Serving a command goes as the request to its connector goes: the same
/// actions are carried out, the connector ends as it does there, no other
/// connector changes, and where the request finishes, its result is reported.
pub proof fn lemma_serve_is_run(
    router: RouterView,
    topic: Seq<char>,
    payload: Seq<u8>,
    outcomes: Seq<Outcome>,
)
    requires
        router.serving is None,
        router.connectors.dom().contains(topic),
        command_of(payload) is Some,
    ensures
        ({
            let command = command_of(payload)->0;
            let s = serve(router.handle_message(topic, payload), outcomes);
            let r = run(router.request(topic, command), outcomes);
            &&& s.performed == r.performed
            &&& s.router.connectors == router.connectors.insert(topic, r.connector)
            &&& s.router.serving == if r.last is Perform {
                Some((topic, command))
            } else {
                None
            }
            &&& s.last == answer_for(r.last, r.connector.state_topic, command)
        }),
{
    let command = command_of(payload)->0;
    let request = router.request(topic, command);
    let start = router.handle_message(topic, payload);
    assert(start == router.settle(topic, command, request));
    if request.1 is Perform {
        lemma_serve_in_flight(start.0, topic, command, outcomes);
        assert(start.0.connectors.insert(topic, run(request, outcomes).connector)
            =~= router.connectors.insert(topic, run(request, outcomes).connector));
    }
}

/// The same of a router that is serving `command` with the connector under
/// `topic`.
proof fn lemma_serve_in_flight(
    router: RouterView,
    topic: Seq<char>,
    command: Switch,
    outcomes: Seq<Outcome>,
)
    requires
        router.serving == Some((topic, command)),
        router.connectors.dom().contains(topic),
        router.connectors[topic].pending_action() is Some,
    ensures
        ({
            let connector = router.connectors[topic];
            let action = connector.pending_action()->0;
            let s = serve((router, DispatchView::Perform(action)), outcomes);
            let r = run((connector, StepView::Perform(action)), outcomes);
            &&& s.performed == r.performed
            &&& s.router.connectors == router.connectors.insert(topic, r.connector)
            &&& s.router.serving == if r.last is Perform {
                Some((topic, command))
            } else {
                None
            }
            &&& s.last == answer_for(r.last, r.connector.state_topic, command)
        }),
    decreases outcomes.len(),
{
    let connector = router.connectors[topic];
    let action = connector.pending_action()->0;
    if outcomes.len() > 0 {
        let next = connector.advance(outcomes[0]);
        let after = router.advance(outcomes[0]);
        assert(after == router.settle(topic, command, next));
        let s = serve(after, outcomes.drop_first());
        let r = run(next, outcomes.drop_first());
        if next.1 is Perform {
            lemma_serve_in_flight(after.0, topic, command, outcomes.drop_first());
            assert(after.0.connectors.insert(topic, r.connector) =~= router.connectors.insert(
                topic,
                r.connector,
            ));
        } else {
            assert(s.performed =~= r.performed);
        }
    } else {
        assert(router.connectors.insert(topic, connector) =~= router.connectors);
    }
}

/// The state that is reported is the state the device is in. Where a command
/// to a device at rest has been served, the report goes to the state topic of
/// that device, retained and delivered at least once; it says `ON` exactly
/// where the connector is connected, and `OFF` exactly where it is
/// disconnected; and it carries an error exactly where the command was to
/// turn the device on and the device is not on.
pub proof fn lemma_report_is_true(
    router: RouterView,
    topic: Seq<char>,
    payload: Seq<u8>,
    outcomes: Seq<Outcome>,
)
    requires
        router.serving is None,
        router.connectors.dom().contains(topic),
        router.connectors[topic].at_rest(),
        command_of(payload) is Some,
        serve(router.handle_message(topic, payload), outcomes).last is Report,
    ensures
        ({
            let s = serve(router.handle_message(topic, payload), outcomes);
            let connector = s.router.connectors[topic];
            let state = if connector.phase is Connected {
                Switch::On
            } else {
                Switch::Off
            };
            &&& s.router.serving is None
            &&& connector.at_rest()
            &&& s.last->Report_publish == state_message(router.connectors[topic].state_topic, state)
            &&& s.last->Report_publish.retained
            &&& s.last->Report_publish.qos == QoS::AtLeastOnce
            &&& s.last->Report_error is Some <==> command_of(payload) == Some(Switch::On) && state
                == Switch::Off
        }),
{
    let command = command_of(payload)->0;
    let connector = router.connectors[topic];
    lemma_serve_is_run(router, topic, payload, outcomes);
    let request = router.request(topic, command);
    lemma_run_keeps_device(request, outcomes);
    if request.1 is Perform {
        lemma_run_in_service(request.0, outcomes);
    }
}

/// `ON` for a device that can be reached turns it on: where the device is
/// disconnected and every action succeeds, the four connect actions are
/// carried out, the connector is connected, and `ON` is reported on the
/// device's state topic, retained.
pub proof fn lemma_on_connects(
    router: RouterView,
    topic: Seq<char>,
    agent: u32,
    settled: Outcome,
    client: u32,
)
    requires
        router.serving is None,
        router.connectors.dom().contains(topic),
        router.connectors[topic].phase is Disconnected,
    ensures
        ({
            let connector = router.connectors[topic];
            let s = serve(
                router.handle_message(topic, switch_payload(Switch::On)),
                seq![Outcome::Started(agent), Outcome::Completed, settled, Outcome::Started(client)],
            );
            &&& s.performed == connect_actions(connector, agent)
            &&& s.last == (DispatchView::Report {
                publish: state_message(connector.state_topic, Switch::On),
                error: None,
            })
            &&& s.router.serving is None
            &&& s.router.connectors == router.connectors.insert(
                topic,
                connector.in_phase(
                    Phase::Connected {
                        pair: AirplayConnected { pipewire: agent, snapclient: client },
                    },
                ),
            )
        }),
{
    let outcomes = seq![
        Outcome::Started(agent),
        Outcome::Completed,
        settled,
        Outcome::Started(client),
    ];
    assert(command_of(switch_payload(Switch::On)) == Some(Switch::On));
    lemma_serve_is_run(router, topic, switch_payload(Switch::On), outcomes);
    lemma_connect_succeeds(router.connectors[topic], agent, settled, client);
}

/// `ON` for a device that cannot be connected leaves it off: where the
/// device is disconnected and connecting fails, at whichever action, the
/// connector is disconnected again, holds no process, and `OFF` is reported
/// on the device's state topic, retained, together with the error.
pub proof fn lemma_on_fails(
    router: RouterView,
    topic: Seq<char>,
    outcomes: Seq<Outcome>,
)
    requires
        router.serving is None,
        router.connectors.dom().contains(topic),
        router.connectors[topic].phase is Disconnected,
        serve(router.handle_message(topic, switch_payload(Switch::On)), outcomes).last is Report,
        serve(
            router.handle_message(topic, switch_payload(Switch::On)),
            outcomes,
        ).last->Report_error is Some,
    ensures
        ({
            let s = serve(router.handle_message(topic, switch_payload(Switch::On)), outcomes);
            &&& s.last->Report_publish == state_message(
                router.connectors[topic].state_topic,
                Switch::Off,
            )
            &&& s.router.connectors[topic] == router.connectors[topic]
            &&& s.router.connectors[topic].running() == Set::<u32>::empty()
            &&& s.router.serving is None
        }),
{
    let payload = switch_payload(Switch::On);
    let connector = router.connectors[topic];
    assert(command_of(payload) == Some(Switch::On));
    lemma_serve_is_run(router, topic, payload, outcomes);
    lemma_report_is_true(router, topic, payload, outcomes);
    lemma_connect_ends_at_rest(connector, outcomes);
    lemma_run_keeps_device(connector.request_connect(), outcomes);
    let r = run(connector.request_connect(), outcomes);
    assert(r.connector == connector);
}

/// `OFF` turns a device off, whatever comes of stopping its processes: where
/// the device is connected, the streaming client is told to end and waited
/// for, then the routing agent, the connector is disconnected, and `OFF` is
/// reported on the device's state topic, retained and without an error.
pub proof fn lemma_off_disconnects(
    router: RouterView,
    topic: Seq<char>,
    pair: AirplayConnected,
    outcomes: Seq<Outcome>,
)
    requires
        router.serving is None,
        router.connectors.dom().contains(topic),
        router.connectors[topic].phase == (Phase::Connected { pair }),
        outcomes.len() == 4,
    ensures
        ({
            let connector = router.connectors[topic];
            let s = serve(router.handle_message(topic, switch_payload(Switch::Off)), outcomes);
            &&& s.performed == disconnect_actions(pair)
            &&& s.last == (DispatchView::Report {
                publish: state_message(connector.state_topic, Switch::Off),
                error: None,
            })
            &&& s.router.serving is None
            &&& s.router.connectors == router.connectors.insert(
                topic,
                connector.in_phase(Phase::Disconnected),
            )
        }),
{
    assert(command_of(switch_payload(Switch::Off)) == Some(Switch::Off)) by {
        assert(switch_payload(Switch::Off).len() != switch_payload(Switch::On).len());
    }
    lemma_serve_is_run(router, topic, switch_payload(Switch::Off), outcomes);
    lemma_disconnect_order(router.connectors[topic], pair, outcomes);
}

/// Once every device was given up, none is connected and no process runs,
/// no command is being served, and the router's parts agree.
pub proof fn lemma_released_is_at_rest(router: RouterView)
    ensures
        consistent(router.released()),
        router.released().connectors.dom() == router.connectors.dom(),
        forall|topic: Seq<char>| #[trigger]
            router.connectors.dom().contains(topic) ==> {
                &&& router.released().connectors[topic].phase is Disconnected
                &&& router.released().connectors[topic].running() == Set::<u32>::empty()
            },
{
    assert(router.released().connectors.dom() =~= router.connectors.dom());
}

} // verus!
