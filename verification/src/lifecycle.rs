//! What holds of every way a request to a connector can go.
//!
//! A request is served by a loop in the caller: it carries out the action of
//! each answer and reports the outcome, until the answer is no action. [`run`]
//! is that loop as a function of the outcomes that the caller meets, and the
//! laws below speak of it.

use crate::connect_airplay::{
    agent_command, agent_program, client_arguments, client_program, disconnect_actions,
    stop_actions, ActionView, AirplayConnected, ConnectError, ConnectorView, Outcome, Phase,
    StepView, SETTLE_MILLIS,
};
use vstd::prelude::*;

verus! {

/// How the serving of a request went.
pub struct Run {
    /// The connector afterwards.
    pub connector: ConnectorView,
    /// The actions that were carried out, in their order.
    pub performed: Seq<ActionView>,
    /// The last answer: the first that was no action, or the action for which
    /// no outcome was left.
    pub last: StepView,
}

/// Serves a request from the connector's first answer to it, `start`, as long
/// as `outcomes` lasts: the action of each answer is carried out, and goes as
/// the next outcome says.
pub open spec fn run(start: (ConnectorView, StepView), outcomes: Seq<Outcome>) -> Run
    decreases outcomes.len(),
{
    match start.1 {
        StepView::Perform(action) => if outcomes.len() > 0 {
            let rest = run(start.0.advance(outcomes[0]), outcomes.drop_first());
            Run { performed: seq![action] + rest.performed, ..rest }
        } else {
            Run { connector: start.0, performed: Seq::empty(), last: start.1 }
        },
        _ => Run { connector: start.0, performed: Seq::empty(), last: start.1 },
    }
}

/// Whether `phase` occurs on the way from disconnected to connected, or on
/// the way back after a failure.
pub open spec fn connecting(phase: Phase) -> bool {
    match phase {
        Phase::StartingAgent
        | Phase::CommandingAgent { .. }
        | Phase::Settling { .. }
        | Phase::StartingClient { .. } => true,
        Phase::StoppingAgent { error, .. } | Phase::ReapingAgent { error, .. } => error is Some,
        _ => false,
    }
}

/// Whether `phase` occurs on the way from connected to disconnected.
pub open spec fn disconnecting(phase: Phase) -> bool {
    match phase {
        Phase::StoppingClient { .. } | Phase::ReapingClient { .. } => true,
        Phase::StoppingAgent { error, .. } | Phase::ReapingAgent { error, .. } => error is None,
        _ => false,
    }
}

/// The number of actions that are still to come, at most, before a connector
/// in `phase` is at rest.
pub open spec fn actions_left(phase: Phase) -> nat {
    match phase {
        Phase::Disconnected | Phase::Connected { .. } => 0,
        Phase::ReapingAgent { .. } => 1,
        Phase::StoppingAgent { .. } => 2,
        Phase::StartingClient { .. } | Phase::ReapingClient { .. } => 3,
        Phase::Settling { .. } | Phase::StoppingClient { .. } => 4,
        Phase::CommandingAgent { .. } => 5,
        Phase::StartingAgent => 6,
    }
}

/// One outcome taken while connecting leads on in connecting, or to rest:
/// connected with success, disconnected with an error.
pub proof fn lemma_connecting_step(connector: ConnectorView, outcome: Outcome)
    requires
        connecting(connector.phase),
    ensures
        ({
            let (next, step) = connector.advance(outcome);
            &&& actions_left(next.phase) < actions_left(connector.phase)
            &&& step == next.answer(Ok(())) || step is Finished
            &&& step is Perform <==> connecting(next.phase)
            &&& step is Perform ==> next.pending_action() == Some(step->Perform_0)
            &&& step is Finished ==> (next.phase is Connected <==> step == StepView::Finished(Ok(())))
            &&& step is Finished ==> (next.phase is Connected <==> step->Finished_0 is Ok)
            &&& step is Finished ==> (next.phase is Disconnected <==> step->Finished_0 is Err)
            &&& step !is Refused
        }),
{
}

/// One outcome taken while disconnecting leads on in disconnecting, or to
/// rest: disconnected, with success.
pub proof fn lemma_disconnecting_step(connector: ConnectorView, outcome: Outcome)
    requires
        disconnecting(connector.phase),
    ensures
        ({
            let (next, step) = connector.advance(outcome);
            &&& actions_left(next.phase) < actions_left(connector.phase)
            &&& step is Perform <==> disconnecting(next.phase)
            &&& step is Perform ==> next.pending_action() == Some(step->Perform_0)
            &&& step is Finished ==> next.phase is Disconnected && step == StepView::Finished(Ok(()))
            &&& step is Finished ==> step->Finished_0 is Ok
            &&& step !is Refused
        }),
{
}

/// No request changes which device a connector is for: its address, its
/// session number and its state topic stay as they are.
pub proof fn lemma_run_keeps_device(start: (ConnectorView, StepView), outcomes: Seq<Outcome>)
    ensures
        run(start, outcomes).connector.ip == start.0.ip,
        run(start, outcomes).connector.client_id == start.0.client_id,
        run(start, outcomes).connector.state_topic == start.0.state_topic,
    decreases outcomes.len(),
{
    if start.1 is Perform && outcomes.len() > 0 {
        let next = start.0.advance(outcomes[0]);
        lemma_run_keeps_device(next, outcomes.drop_first());
    }
}

/// However the actions go, a request that is being served is never refused;
/// it is finished after as many outcomes as the phase has actions left; as
/// long as it is not finished, every outcome was used; a connect request
/// finishes with success exactly in `Connected` and with an error exactly in
/// `Disconnected`; a disconnect request finishes with success, in
/// `Disconnected`.
pub proof fn lemma_run_in_service(connector: ConnectorView, outcomes: Seq<Outcome>)
    requires
        connecting(connector.phase) || disconnecting(connector.phase),
    ensures
        ({
            let r = run((connector, connector.answer(Ok(()))), outcomes);
            &&& r.last !is Refused
            &&& outcomes.len() >= actions_left(connector.phase) ==> r.last is Finished
            &&& r.last is Perform ==> r.performed.len() == outcomes.len()
            &&& r.last is Perform ==> r.connector.pending_action() == Some(r.last->Perform_0)
            &&& r.last is Perform ==> (connecting(connector.phase) <==> connecting(r.connector.phase))
            &&& r.last is Perform ==> (disconnecting(connector.phase) <==> disconnecting(
                r.connector.phase,
            ))
            &&& r.last is Finished ==> r.connector.at_rest()
            &&& r.last is Finished ==> (r.last->Finished_0 is Ok <==> r.last == StepView::Finished(
                Ok(()),
            ))
            &&& r.last is Finished && connecting(connector.phase) ==> (r.connector.phase is Connected
                <==> r.last->Finished_0 is Ok)
            &&& r.last is Finished && disconnecting(connector.phase) ==> r.connector.phase
                is Disconnected && r.last->Finished_0 is Ok
        }),
    decreases outcomes.len(),
{
    if outcomes.len() > 0 {
        let (next, step) = connector.advance(outcomes[0]);
        if connecting(connector.phase) {
            lemma_connecting_step(connector, outcomes[0]);
        } else {
            lemma_disconnecting_step(connector, outcomes[0]);
        }
        if step is Perform {
            assert(step == next.answer(Ok(())));
            lemma_run_in_service(next, outcomes.drop_first());
        }
    }
}

/// Connecting is idempotent: the processes of a device are acquired at most
/// once by two connect requests in a row. Once a connect request has finished
/// with success, the connector is connected, and the next connect request
/// finishes at once, with success, asks for no action and changes nothing.
/// Once it has finished with an error, it has acquired nothing: the connector
/// is disconnected and holds no process.
pub proof fn lemma_connect_twice(connector: ConnectorView, outcomes: Seq<Outcome>)
    requires
        connector.at_rest(),
        run(connector.request_connect(), outcomes).last is Finished,
    ensures
        ({
            let first = run(connector.request_connect(), outcomes);
            if first.last == StepView::Finished(Ok(())) {
                &&& first.connector.phase is Connected
                &&& first.connector.request_connect() == (
                    first.connector,
                    StepView::Finished(Ok(())),
                )
                &&& forall|more: Seq<Outcome>|
                    (#[trigger] run(first.connector.request_connect(), more)).performed
                        == Seq::<ActionView>::empty()
            } else {
                &&& first.connector.phase is Disconnected
                &&& first.connector.connected_airplay() is None
                &&& first.connector.running() == Set::<u32>::empty()
            }
        }),
{
    if connector.phase is Disconnected {
        lemma_run_in_service(connector.request_connect().0, outcomes);
    }
}

/// Disconnecting is idempotent, and never fails: a disconnect request that
/// has finished has finished with success, the connector is disconnected and
/// holds no process, and the next disconnect request finishes at once, with
/// success, asks for no action and changes nothing.
pub proof fn lemma_disconnect_twice(connector: ConnectorView, outcomes: Seq<Outcome>)
    requires
        connector.at_rest(),
        run(connector.request_disconnect(), outcomes).last is Finished,
    ensures
        ({
            let first = run(connector.request_disconnect(), outcomes);
            &&& first.last == StepView::Finished(Ok(()))
            &&& first.connector.phase is Disconnected
            &&& first.connector.connected_airplay() is None
            &&& first.connector.running() == Set::<u32>::empty()
            &&& first.connector.request_disconnect() == (
                first.connector,
                StepView::Finished(Ok(())),
            )
            &&& forall|more: Seq<Outcome>|
                (#[trigger] run(first.connector.request_disconnect(), more)).performed
                    == Seq::<ActionView>::empty()
        }),
{
    if connector.phase is Connected {
        lemma_run_in_service(connector.request_disconnect().0, outcomes);
    }
}

/// A connect request to a disconnected connector ends in a state of rest that
/// agrees with its result, and in no more than six actions: with success the
/// connector is connected, with an error it is disconnected and no process
/// of the device is left running.
pub proof fn lemma_connect_ends_at_rest(connector: ConnectorView, outcomes: Seq<Outcome>)
    requires
        connector.phase is Disconnected,
    ensures
        ({
            let r = run(connector.request_connect(), outcomes);
            &&& outcomes.len() >= 6 ==> r.last is Finished
            &&& r.last !is Refused
            &&& r.last == StepView::Finished(Ok(())) ==> r.connector.phase is Connected
            &&& r.last is Finished && r.last != StepView::Finished(Ok(())) ==> r.connector.phase
                is Disconnected && r.connector.running() == Set::<u32>::empty()
        }),
{
    lemma_run_in_service(connector.request_connect().0, outcomes);
}

/// A disconnect request ends in no more than four actions, whatever their
/// outcomes, with success and in `Disconnected`.
pub proof fn lemma_disconnect_ends_disconnected(connector: ConnectorView, outcomes: Seq<Outcome>)
    requires
        connector.at_rest(),
        outcomes.len() >= 4,
    ensures
        ({
            let r = run(connector.request_disconnect(), outcomes);
            &&& r.last == StepView::Finished(Ok(()))
            &&& r.connector.phase is Disconnected
            &&& r.connector.running() == Set::<u32>::empty()
        }),
{
    if connector.phase is Connected {
        lemma_run_in_service(connector.request_disconnect().0, outcomes);
    }
}

/// The four actions that connect the device at `connector.ip`, given that
/// the routing agent started as `agent`.
pub open spec fn connect_actions(connector: ConnectorView, agent: u32) -> Seq<ActionView> {
    seq![
        ActionView::StartAgent { program: agent_program() },
        ActionView::SendAgentCommand { agent, command: agent_command(connector.ip) },
        ActionView::Settle { millis: SETTLE_MILLIS },
        ActionView::StartClient {
            program: client_program(),
            arguments: client_arguments(connector.ip, connector.client_id),
        },
    ]
}

/// Where every action succeeds, a disconnected device is connected by the
/// four connect actions, in their order: the routing agent is started, takes
/// its command and is given its time before the streaming client is started.
pub proof fn lemma_connect_succeeds(
    connector: ConnectorView,
    agent: u32,
    settled: Outcome,
    client: u32,
)
    requires
        connector.phase is Disconnected,
    ensures
        ({
            let r = run(
                connector.request_connect(),
                seq![Outcome::Started(agent), Outcome::Completed, settled, Outcome::Started(client)],
            );
            &&& r.performed == connect_actions(connector, agent)
            &&& r.last == StepView::Finished(Ok(()))
            &&& r.connector == connector.in_phase(
                Phase::Connected { pair: AirplayConnected { pipewire: agent, snapclient: client } },
            )
        }),
{
    let outcomes = seq![
        Outcome::Started(agent),
        Outcome::Completed,
        settled,
        Outcome::Started(client),
    ];
    let r = run(connector.request_connect(), outcomes);
    reveal_with_fuel(run, 5);
    assert(r.performed =~= connect_actions(connector, agent));
}

/// Where the routing agent cannot be started, nothing else is tried: the
/// request finishes with `AgentStart` and the connector stays disconnected.
pub proof fn lemma_agent_start_fails(connector: ConnectorView, started: Outcome)
    requires
        connector.phase is Disconnected,
        started !is Started,
    ensures
        ({
            let r = run(connector.request_connect(), seq![started]);
            &&& r.performed == seq![ActionView::StartAgent { program: agent_program() }]
            &&& r.last == StepView::Finished(Err(ConnectError::AgentStart))
            &&& r.connector == connector
        }),
{
    let outcomes = seq![started];
    let r = run(connector.request_connect(), outcomes);
    reveal_with_fuel(run, 2);
    assert(r.performed =~= seq![ActionView::StartAgent { program: agent_program() }]);
}

/// Where the routing agent does not take its command, the streaming client
/// is never started, the routing agent is told to end and waited for, whatever
/// comes of that, and the request finishes with `AgentCommand` and the
/// connector disconnected.
pub proof fn lemma_agent_command_fails(
    connector: ConnectorView,
    agent: u32,
    commanded: Outcome,
    killed: Outcome,
    waited: Outcome,
)
    requires
        connector.phase is Disconnected,
        commanded !is Completed,
    ensures
        ({
            let r = run(
                connector.request_connect(),
                seq![Outcome::Started(agent), commanded, killed, waited],
            );
            &&& r.performed == connect_actions(connector, agent).take(2) + stop_actions(agent)
            &&& r.last == StepView::Finished(Err(ConnectError::AgentCommand))
            &&& r.connector == connector
        }),
{
    let outcomes = seq![Outcome::Started(agent), commanded, killed, waited];
    let r = run(connector.request_connect(), outcomes);
    reveal_with_fuel(run, 5);
    assert(r.performed =~= connect_actions(connector, agent).take(2) + stop_actions(agent));
}

/// Where the streaming client cannot be started, the routing agent that was
/// started before it is told to end and waited for, whatever comes of that,
/// and only then does the request finish, with `ClientStart` and the
/// connector disconnected.
pub proof fn lemma_client_start_fails(
    connector: ConnectorView,
    agent: u32,
    settled: Outcome,
    started: Outcome,
    killed: Outcome,
    waited: Outcome,
)
    requires
        connector.phase is Disconnected,
        started !is Started,
    ensures
        ({
            let r = run(
                connector.request_connect(),
                seq![Outcome::Started(agent), Outcome::Completed, settled, started, killed, waited],
            );
            &&& r.performed == connect_actions(connector, agent) + stop_actions(agent)
            &&& r.last == StepView::Finished(Err(ConnectError::ClientStart))
            &&& r.connector == connector
        }),
{
    let outcomes = seq![
        Outcome::Started(agent),
        Outcome::Completed,
        settled,
        started,
        killed,
        waited,
    ];
    let r = run(connector.request_connect(), outcomes);
    reveal_with_fuel(run, 7);
    assert(r.performed =~= connect_actions(connector, agent) + stop_actions(agent));
}

/// A connected device is disconnected by the four disconnect actions, in
/// their order and whatever their outcomes: the streaming client is stopped
/// before the routing agent.
pub proof fn lemma_disconnect_order(
    connector: ConnectorView,
    pair: AirplayConnected,
    outcomes: Seq<Outcome>,
)
    requires
        connector.phase == (Phase::Connected { pair }),
        outcomes.len() == 4,
    ensures
        ({
            let r = run(connector.request_disconnect(), outcomes);
            &&& r.performed == disconnect_actions(pair)
            &&& r.last == StepView::Finished(Ok(()))
            &&& r.connector == connector.in_phase(Phase::Disconnected)
        }),
{
    let r = run(connector.request_disconnect(), outcomes);
    reveal_with_fuel(run, 5);
    assert(r.performed =~= disconnect_actions(pair));
}

} // verus!
