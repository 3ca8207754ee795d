//! The connection lifecycle of one AirPlay device.
//!
//! A device is joined to the audio pipeline by two processes: the routing
//! agent `pw-cli`, which is told to create a sink for the device's address,
//! and the streaming client `snapclient`, which plays into that sink. An
//! [`AirplayConnector`] decides in which order they are started and stopped.
//! It starts and stops nothing itself: each call answers with a [`Step`], the
//! caller carries out the [`Action`] in it and reports the [`Outcome`] to
//! [`AirplayConnector::advance`], until the answer is `Finished`.

use crate::topics::{decimal, decimal_text};
use vstd::prelude::*;

verus! {

/// Why a device could not be connected.
#[derive(Clone, Copy, Debug, PartialEq, Eq, Structural)]
pub enum ConnectError {
    /// The routing agent could not be started.
    AgentStart,
    /// The routing agent did not take the command that declares the sink.
    AgentCommand,
    /// The streaming client could not be started.
    ClientStart,
}

impl ConnectError {
    /// The error in words.
    pub open spec fn description(self) -> Seq<char> {
        match self {
            ConnectError::AgentStart => "Failed to spawn pw-cli"@,
            ConnectError::AgentCommand => "Couldn't write command to pw-cli"@,
            ConnectError::ClientStart => "Failed to spawn snapclient"@,
        }
    }

    /// Writes the error in words.
    pub fn describe(&self) -> (text: String)
        ensures
            text@ == self.description(),
    {
        match self {
            ConnectError::AgentStart => String::from_str("Failed to spawn pw-cli"),
            ConnectError::AgentCommand => String::from_str("Couldn't write command to pw-cli"),
            ConnectError::ClientStart => String::from_str("Failed to spawn snapclient"),
        }
    }
}

/// The two running processes of a connected device, each by the number under
/// which the caller reported it started.
#[derive(Clone, Copy, Debug, PartialEq, Eq, Structural)]
pub struct AirplayConnected {
    /// The routing agent.
    pub pipewire: u32,
    /// The streaming client.
    pub snapclient: u32,
}

/// How an action went. A start succeeds with `Started`, every other action
/// with `Completed`; whatever else is reported of an action counts as its
/// failure.
#[derive(Clone, Copy, Debug, PartialEq, Eq, Structural)]
pub enum Outcome {
    /// A process was started; later actions name it by this number.
    Started(u32),
    /// The action was carried out and hands nothing back.
    Completed,
    /// The action could not be carried out.
    Failed,
}

/// Where a connector stands. `Disconnected` and `Connected` are the two states
/// of rest; in every other phase one action is with the caller.
#[derive(Clone, Copy, Debug, PartialEq, Eq)]
pub enum Phase {
    /// No process runs for the device.
    Disconnected,
    /// The routing agent is being started.
    StartingAgent,
    /// The routing agent runs and is being sent its command.
    CommandingAgent { agent: u32 },
    /// The routing agent has its command and is given time to set up the sink.
    Settling { agent: u32 },
    /// The streaming client is being started.
    StartingClient { agent: u32 },
    /// Both processes run.
    Connected { pair: AirplayConnected },
    /// The streaming client is being told to end.
    StoppingClient { pair: AirplayConnected },
    /// The streaming client is being waited for.
    ReapingClient { pair: AirplayConnected },
    /// The routing agent is being told to end: after the streaming client
    /// on the way to disconnected, or because connecting failed with `error`.
    StoppingAgent { agent: u32, error: Option<ConnectError> },
    /// The routing agent is being waited for.
    ReapingAgent { agent: u32, error: Option<ConnectError> },
}

/// Something for the caller to carry out.
#[derive(Clone, Debug, PartialEq, Eq)]
pub enum Action {
    /// Start the routing agent `program` without arguments, with a control
    /// input that can be written to and with its output discarded.
    StartAgent { program: String },
    /// Write `command` to the control input of the routing agent `agent`.
    SendAgentCommand { agent: u32, command: String },
    /// Let `millis` milliseconds pass.
    Settle { millis: u64 },
    /// Start the streaming client `program` with `arguments`.
    StartClient { program: String, arguments: Vec<String> },
    /// Tell `process` to end.
    Kill { process: u32 },
    /// Wait until `process` has ended.
    Wait { process: u32 },
}

/// An [`Action`] as a mathematical value.
pub enum ActionView {
    StartAgent { program: Seq<char> },
    SendAgentCommand { agent: u32, command: Seq<char> },
    Settle { millis: u64 },
    StartClient { program: Seq<char>, arguments: Seq<Seq<char>> },
    Kill { process: u32 },
    Wait { process: u32 },
}

impl View for Action {
    type V = ActionView;

    open spec fn view(&self) -> ActionView {
        match *self {
            Action::StartAgent { program } => ActionView::StartAgent { program: program@ },
            Action::SendAgentCommand { agent, command } => ActionView::SendAgentCommand {
                agent,
                command: command@,
            },
            Action::Settle { millis } => ActionView::Settle { millis },
            Action::StartClient { program, arguments } => ActionView::StartClient {
                program: program@,
                arguments: arguments.deep_view(),
            },
            Action::Kill { process } => ActionView::Kill { process },
            Action::Wait { process } => ActionView::Wait { process },
        }
    }
}

/// A connector's answer to a call.
#[derive(Debug, PartialEq, Eq)]
pub enum Step {
    /// Carry out the action, then report its outcome to
    /// [`AirplayConnector::advance`].
    Perform(Action),
    /// The request is complete, with this result.
    Finished(Result<(), ConnectError>),
    /// The call does not fit the connector's phase, and changed nothing: a
    /// request while another is being served, or an outcome while none is.
    Refused,
}

/// A [`Step`] as a mathematical value.
pub enum StepView {
    Perform(ActionView),
    Finished(Result<(), ConnectError>),
    Refused,
}

impl View for Step {
    type V = StepView;

    open spec fn view(&self) -> StepView {
        match *self {
            Step::Perform(action) => StepView::Perform(action@),
            Step::Finished(result) => StepView::Finished(result),
            Step::Refused => StepView::Refused,
        }
    }
}

/// The connector of one device.
#[derive(Debug)]
pub struct AirplayConnector {
    ip: String,
    /// The topic on which the device's state is reported.
    pub state_topic: String,
    client_id: usize,
    phase: Phase,
}

/// An [`AirplayConnector`] as a mathematical value.
pub struct ConnectorView {
    /// The network address of the device.
    pub ip: Seq<char>,
    /// The topic on which the device's state is reported.
    pub state_topic: Seq<char>,
    /// The session number of the device.
    pub client_id: usize,
    pub phase: Phase,
}

impl View for AirplayConnector {
    type V = ConnectorView;

    closed spec fn view(&self) -> ConnectorView {
        ConnectorView {
            ip: self.ip@,
            state_topic: self.state_topic@,
            client_id: self.client_id,
            phase: self.phase,
        }
    }
}

/// The name of the routing agent's program.
pub open spec fn agent_program() -> Seq<char> {
    "pw-cli"@
}

/// The name of the streaming client's program.
pub open spec fn client_program() -> Seq<char> {
    "snapclient"@
}

/// The time the routing agent is given to set up its sink, in milliseconds.
pub const SETTLE_MILLIS: u64 = 5000;

/// The line that makes the routing agent declare a sink for the device at `ip`.
pub open spec fn agent_command(ip: Seq<char>) -> Seq<char> {
    "load-module libpipewire-module-raop-discover stream.rules = [ { matches = [ { raop.ip = \""@
        + ip + "\" } ] actions = { create-stream = { stream.props = { } } } } ]\n"@
}

/// The arguments of the streaming client for the device at `ip` with the
/// session number `client_id`:
/// `-i {client_id} -s {ip} --player pulse --mixer hardware`.
pub open spec fn client_arguments(ip: Seq<char>, client_id: usize) -> Seq<Seq<char>> {
    seq![
        "-i"@,
        decimal(client_id as nat),
        "-s"@,
        ip,
        "--player"@,
        "pulse"@,
        "--mixer"@,
        "hardware"@,
    ]
}

/// The two actions that stop `process`: it is told to end, then waited for.
pub open spec fn stop_actions(process: u32) -> Seq<ActionView> {
    seq![ActionView::Kill { process }, ActionView::Wait { process }]
}

/// The four actions that disconnect a device whose processes are `pair`: the
/// streaming client is told to end and waited for, then the routing agent.
pub open spec fn disconnect_actions(pair: AirplayConnected) -> Seq<ActionView> {
    stop_actions(pair.snapclient) + stop_actions(pair.pipewire)
}

/// The actions that stop whatever runs for a device whose connector is in
/// `phase`.
pub open spec fn release_actions(phase: Phase) -> Seq<ActionView> {
    match phase {
        Phase::Disconnected | Phase::StartingAgent => Seq::empty(),
        Phase::CommandingAgent { agent }
        | Phase::Settling { agent }
        | Phase::StartingClient { agent }
        | Phase::StoppingAgent { agent, .. }
        | Phase::ReapingAgent { agent, .. } => stop_actions(agent),
        Phase::Connected { pair }
        | Phase::StoppingClient { pair }
        | Phase::ReapingClient { pair } => disconnect_actions(pair),
    }
}

/// The views of `actions`.
pub open spec fn action_views(actions: Seq<Action>) -> Seq<ActionView> {
    actions.map_values(|action: Action| action@)
}

impl ConnectorView {
    /// The same connector in another phase.
    pub open spec fn in_phase(self, phase: Phase) -> ConnectorView {
        ConnectorView { phase, ..self }
    }

    /// Whether no request is being served.
    pub open spec fn at_rest(self) -> bool {
        self.phase is Disconnected || self.phase is Connected
    }

    /// The pair of processes the connector holds as a connected device.
    pub open spec fn connected_airplay(self) -> Option<AirplayConnected> {
        match self.phase {
            Phase::Connected { pair } => Some(pair),
            _ => None,
        }
    }

    /// The processes that run for the device as far as the connector knows.
    pub open spec fn running(self) -> Set<u32> {
        match self.phase {
            Phase::Disconnected | Phase::StartingAgent => Set::empty(),
            Phase::CommandingAgent { agent }
            | Phase::Settling { agent }
            | Phase::StartingClient { agent }
            | Phase::StoppingAgent { agent, .. }
            | Phase::ReapingAgent { agent, .. } => set![agent],
            Phase::Connected { pair }
            | Phase::StoppingClient { pair }
            | Phase::ReapingClient { pair } => set![pair.pipewire, pair.snapclient],
        }
    }

    /// The action that is with the caller in this phase, if any.
    pub open spec fn pending_action(self) -> Option<ActionView> {
        match self.phase {
            Phase::Disconnected | Phase::Connected { .. } => None,
            Phase::StartingAgent => Some(ActionView::StartAgent { program: agent_program() }),
            Phase::CommandingAgent { agent } => Some(
                ActionView::SendAgentCommand { agent, command: agent_command(self.ip) },
            ),
            Phase::Settling { .. } => Some(ActionView::Settle { millis: SETTLE_MILLIS }),
            Phase::StartingClient { .. } => Some(
                ActionView::StartClient {
                    program: client_program(),
                    arguments: client_arguments(self.ip, self.client_id),
                },
            ),
            Phase::StoppingClient { pair } => Some(ActionView::Kill { process: pair.snapclient }),
            Phase::ReapingClient { pair } => Some(ActionView::Wait { process: pair.snapclient }),
            Phase::StoppingAgent { agent, .. } => Some(ActionView::Kill { process: agent }),
            Phase::ReapingAgent { agent, .. } => Some(ActionView::Wait { process: agent }),
        }
    }

    /// The answer of a connector that has just come to be `self`: the action
    /// of its phase, or, at rest, that the request finished with `verdict`.
    pub open spec fn answer(self, verdict: Result<(), ConnectError>) -> StepView {
        match self.pending_action() {
            Some(action) => StepView::Perform(action),
            None => StepView::Finished(verdict),
        }
    }

    /// A request to connect: at rest and connected it finishes at once and
    /// changes nothing; at rest and disconnected it starts the routing agent;
    /// otherwise it is refused.
    pub open spec fn request_connect(self) -> (ConnectorView, StepView) {
        match self.phase {
            Phase::Disconnected => {
                let next = self.in_phase(Phase::StartingAgent);
                (next, next.answer(Ok(())))
            },
            Phase::Connected { .. } => (self, StepView::Finished(Ok(()))),
            _ => (self, StepView::Refused),
        }
    }

    /// A request to disconnect: at rest and disconnected it finishes at once
    /// and changes nothing; at rest and connected it begins to stop the
    /// streaming client; otherwise it is refused.
    pub open spec fn request_disconnect(self) -> (ConnectorView, StepView) {
        match self.phase {
            Phase::Disconnected => (self, StepView::Finished(Ok(()))),
            Phase::Connected { pair } => {
                let next = self.in_phase(Phase::StoppingClient { pair });
                (next, next.answer(Ok(())))
            },
            _ => (self, StepView::Refused),
        }
    }

    /// The report of how the pending action went. At rest it is refused.
    pub open spec fn advance(self, outcome: Outcome) -> (ConnectorView, StepView) {
        if self.at_rest() {
            (self, StepView::Refused)
        } else {
            let (phase, verdict) = phase_after(self.phase, outcome);
            let next = self.in_phase(phase);
            (next, next.answer(verdict))
        }
    }
}

/// The result of a request that ends after connecting went wrong with
/// `error`, or with nothing having gone wrong.
pub open spec fn verdict(error: Option<ConnectError>) -> Result<(), ConnectError> {
    match error {
        Some(error) => Err(error),
        None => Ok(()),
    }
}

/// The phase that follows `phase` once its action went as `outcome` says,
/// and the result of the request in case that phase is one of rest.
///
/// Connecting goes on only while each action succeeds. Once the routing agent
/// runs, a failure has it stopped and waited for before the request finishes
/// with the error. Stopping never turns back: the outcome of telling a process
/// to end, or of waiting for it, changes nothing.
pub open spec fn phase_after(phase: Phase, outcome: Outcome) -> (Phase, Result<(), ConnectError>) {
    match phase {
        Phase::Disconnected => (phase, Ok(())),
        Phase::Connected { .. } => (phase, Ok(())),
        Phase::StartingAgent => match outcome {
            Outcome::Started(agent) => (Phase::CommandingAgent { agent }, Ok(())),
            _ => (Phase::Disconnected, Err(ConnectError::AgentStart)),
        },
        Phase::CommandingAgent { agent } => match outcome {
            Outcome::Completed => (Phase::Settling { agent }, Ok(())),
            _ => (
                Phase::StoppingAgent { agent, error: Some(ConnectError::AgentCommand) },
                Ok(()),
            ),
        },
        Phase::Settling { agent } => (Phase::StartingClient { agent }, Ok(())),
        Phase::StartingClient { agent } => match outcome {
            Outcome::Started(client) => (
                Phase::Connected { pair: AirplayConnected { pipewire: agent, snapclient: client } },
                Ok(()),
            ),
            _ => (
                Phase::StoppingAgent { agent, error: Some(ConnectError::ClientStart) },
                Ok(()),
            ),
        },
        Phase::StoppingClient { pair } => (Phase::ReapingClient { pair }, Ok(())),
        Phase::ReapingClient { pair } => (
            Phase::StoppingAgent { agent: pair.pipewire, error: None },
            Ok(()),
        ),
        Phase::StoppingAgent { agent, error } => (Phase::ReapingAgent { agent, error }, Ok(())),
        Phase::ReapingAgent { agent, error } => (Phase::Disconnected, verdict(error)),
    }
}

impl AirplayConnected {
    /// The pair of the routing agent `pipewire` and the streaming client
    /// `snapclient`.
    pub fn new(pipewire: u32, snapclient: u32) -> (pair: Self)
        ensures
            pair == (AirplayConnected { pipewire, snapclient }),
    {
        AirplayConnected { pipewire, snapclient }
    }
}

impl AirplayConnector {
    /// A disconnected connector for the device at `ip` with the session
    /// number `client_id`, whose state is reported on `state_topic`.
    pub fn new(ip: String, client_id: usize, state_topic: String) -> (connector: Self)
        ensures
            connector@ == (ConnectorView {
                ip: ip@,
                state_topic: state_topic@,
                client_id,
                phase: Phase::Disconnected,
            }),
    {
        AirplayConnector { ip, state_topic, client_id, phase: Phase::Disconnected }
    }

    /// Asks for the device to be connected.
    ///
    /// Where it is connected already, nothing changes and nothing is to be
    /// done: the request has finished, with success.
    pub fn connect(&mut self) -> (step: Step)
        ensures
            final(self)@ == old(self)@.request_connect().0,
            step@ == old(self)@.request_connect().1,
            old(self)@.phase is Connected ==> final(self)@ == old(self)@ && step@
                == StepView::Finished(Ok(())),
    {
        match self.phase {
            Phase::Disconnected => {
                self.phase = Phase::StartingAgent;
                self.answer(Ok(()))
            },
            Phase::Connected { .. } => Step::Finished(Ok(())),
            _ => Step::Refused,
        }
    }

    /// Asks for the device to be disconnected.
    ///
    /// Where it is disconnected already, nothing changes and nothing is to be
    /// done: the request has finished, with success. However it goes on, the
    /// connector is not connected from here on, and the request does not
    /// finish with an error.
    pub fn disconnect(&mut self) -> (step: Step)
        ensures
            final(self)@ == old(self)@.request_disconnect().0,
            step@ == old(self)@.request_disconnect().1,
            old(self)@.phase is Disconnected ==> final(self)@ == old(self)@ && step@
                == StepView::Finished(Ok(())),
            old(self)@.at_rest() ==> !(final(self)@.phase is Connected),
            step@ is Finished ==> step@ == StepView::Finished(Ok(())),
    {
        match self.phase {
            Phase::Disconnected => Step::Finished(Ok(())),
            Phase::Connected { pair } => {
                self.phase = Phase::StoppingClient { pair };
                self.answer(Ok(()))
            },
            _ => Step::Refused,
        }
    }

    /// Takes the outcome of the action that the last answer asked for.
    pub fn advance(&mut self, outcome: Outcome) -> (step: Step)
        ensures
            final(self)@ == old(self)@.advance(outcome).0,
            step@ == old(self)@.advance(outcome).1,
    {
        let (phase, verdict) = match self.phase {
            Phase::Disconnected => {
                return Step::Refused;
            },
            Phase::Connected { .. } => {
                return Step::Refused;
            },
            Phase::StartingAgent => match outcome {
                Outcome::Started(agent) => (Phase::CommandingAgent { agent }, Ok(())),
                _ => (Phase::Disconnected, Err(ConnectError::AgentStart)),
            },
            Phase::CommandingAgent { agent } => match outcome {
                Outcome::Completed => (Phase::Settling { agent }, Ok(())),
                _ => (
                    Phase::StoppingAgent { agent, error: Some(ConnectError::AgentCommand) },
                    Ok(()),
                ),
            },
            Phase::Settling { agent } => (Phase::StartingClient { agent }, Ok(())),
            Phase::StartingClient { agent } => match outcome {
                Outcome::Started(client) => (
                    Phase::Connected { pair: AirplayConnected::new(agent, client) },
                    Ok(()),
                ),
                _ => (
                    Phase::StoppingAgent { agent, error: Some(ConnectError::ClientStart) },
                    Ok(()),
                ),
            },
            Phase::StoppingClient { pair } => (Phase::ReapingClient { pair }, Ok(())),
            Phase::ReapingClient { pair } => (
                Phase::StoppingAgent { agent: pair.pipewire, error: None },
                Ok(()),
            ),
            Phase::StoppingAgent { agent, error } => (Phase::ReapingAgent { agent, error }, Ok(())),
            Phase::ReapingAgent { agent, error } => (
                Phase::Disconnected,
                match error {
                    Some(error) => Err(error),
                    None => Ok(()),
                },
            ),
        };
        self.phase = phase;
        self.answer(verdict)
    }

    /// The topic on which the device's state is reported.
    pub fn state_topic(&self) -> (topic: &str)
        ensures
            topic@ == self@.state_topic,
    {
        self.state_topic.as_str()
    }

    /// Gives the device up, in whatever phase the connector is: the connector
    /// is disconnected at once, and hands out the actions that stop what ran
    /// for the device. They are to be carried out in their order, each
    /// whatever came of the one before; their outcomes are not reported.
    pub fn release(&mut self) -> (actions: Vec<Action>)
        ensures
            final(self)@ == old(self)@.in_phase(Phase::Disconnected),
            action_views(actions@) == release_actions(old(self)@.phase),
    {
        let mut actions: Vec<Action> = Vec::new();
        match self.phase {
            Phase::Disconnected => {},
            Phase::StartingAgent => {},
            Phase::CommandingAgent { agent } => {
                push_stop(&mut actions, agent);
            },
            Phase::Settling { agent } => {
                push_stop(&mut actions, agent);
            },
            Phase::StartingClient { agent } => {
                push_stop(&mut actions, agent);
            },
            Phase::StoppingAgent { agent, .. } => {
                push_stop(&mut actions, agent);
            },
            Phase::ReapingAgent { agent, .. } => {
                push_stop(&mut actions, agent);
            },
            Phase::Connected { pair } => {
                push_stop(&mut actions, pair.snapclient);
                push_stop(&mut actions, pair.pipewire);
            },
            Phase::StoppingClient { pair } => {
                push_stop(&mut actions, pair.snapclient);
                push_stop(&mut actions, pair.pipewire);
            },
            Phase::ReapingClient { pair } => {
                push_stop(&mut actions, pair.snapclient);
                push_stop(&mut actions, pair.pipewire);
            },
        }
        self.phase = Phase::Disconnected;
        assert(action_views(actions@) =~= release_actions(old(self)@.phase));
        actions
    }

    /// Where the connector stands.
    pub fn phase(&self) -> (phase: Phase)
        ensures
            phase == self@.phase,
    {
        self.phase
    }

    /// Whether the device is connected: whether the connector is at rest and
    /// holds its pair of processes.
    pub fn is_connected(&self) -> (connected: bool)
        ensures
            connected == (self@.phase is Connected),
            connected == self@.connected_airplay().is_some(),
    {
        match self.phase {
            Phase::Connected { .. } => true,
            _ => false,
        }
    }

    /// The pair of processes that the connector holds as a connected device.
    pub fn connected_airplay(&self) -> (pair: Option<AirplayConnected>)
        ensures
            pair == self@.connected_airplay(),
    {
        match self.phase {
            Phase::Connected { pair } => Some(pair),
            _ => None,
        }
    }

    fn answer(&self, verdict: Result<(), ConnectError>) -> (step: Step)
        ensures
            step@ == self@.answer(verdict),
    {
        match self.phase {
            Phase::Disconnected => Step::Finished(verdict),
            Phase::Connected { .. } => Step::Finished(verdict),
            Phase::StartingAgent => Step::Perform(
                Action::StartAgent { program: String::from_str("pw-cli") },
            ),
            Phase::CommandingAgent { agent } => Step::Perform(
                Action::SendAgentCommand { agent, command: agent_command_text(self.ip.as_str()) },
            ),
            Phase::Settling { .. } => Step::Perform(Action::Settle { millis: SETTLE_MILLIS }),
            Phase::StartingClient { .. } => Step::Perform(
                Action::StartClient {
                    program: String::from_str("snapclient"),
                    arguments: client_argument_texts(self.ip.as_str(), self.client_id),
                },
            ),
            Phase::StoppingClient { pair } => Step::Perform(
                Action::Kill { process: pair.snapclient },
            ),
            Phase::ReapingClient { pair } => Step::Perform(
                Action::Wait { process: pair.snapclient },
            ),
            Phase::StoppingAgent { agent, .. } => Step::Perform(Action::Kill { process: agent }),
            Phase::ReapingAgent { agent, .. } => Step::Perform(Action::Wait { process: agent }),
        }
    }
}

/// Adds to `actions` the two that stop `process`.
fn push_stop(actions: &mut Vec<Action>, process: u32)
    ensures
        action_views(final(actions)@) == action_views(old(actions)@) + stop_actions(process),
{
    actions.push(Action::Kill { process });
    actions.push(Action::Wait { process });
    assert(action_views(actions@) =~= action_views(old(actions)@) + stop_actions(process));
}

/// Writes the line that makes the routing agent declare a sink for the device
/// at `ip`.
pub fn agent_command_text(ip: &str) -> (command: String)
    ensures
        command@ == agent_command(ip@),
{
    let mut command = String::from_str(
        "load-module libpipewire-module-raop-discover stream.rules = [ { matches = [ { raop.ip = \"",
    );
    command.append(ip);
    command.append("\" } ] actions = { create-stream = { stream.props = { } } } } ]\n");
    command
}

/// Writes the arguments of the streaming client for the device at `ip` with
/// the session number `client_id`.
pub fn client_argument_texts(ip: &str, client_id: usize) -> (arguments: Vec<String>)
    ensures
        arguments.deep_view() == client_arguments(ip@, client_id),
{
    let mut arguments: Vec<String> = Vec::new();
    arguments.push(String::from_str("-i"));
    arguments.push(decimal_text(client_id));
    arguments.push(String::from_str("-s"));
    arguments.push(String::from_str(ip));
    arguments.push(String::from_str("--player"));
    arguments.push(String::from_str("pulse"));
    arguments.push(String::from_str("--mixer"));
    arguments.push(String::from_str("hardware"));
    assert(arguments.deep_view() =~= client_arguments(ip@, client_id));
    arguments
}

} // verus!
