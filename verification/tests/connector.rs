use airplay_bridge::connect_airplay::{
    agent_command_text, client_argument_texts, Action, AirplayConnected, AirplayConnector,
    ConnectError, Outcome, Phase, Step, SETTLE_MILLIS,
};

fn connector() -> AirplayConnector {
    AirplayConnector::new("10.0.0.5".to_string(), 100, "snapnode/100/state".to_string())
}

fn connected(agent: u32, client: u32) -> AirplayConnector {
    let mut c = connector();
    c.connect();
    c.advance(Outcome::Started(agent));
    c.advance(Outcome::Completed);
    c.advance(Outcome::Completed);
    assert_eq!(c.advance(Outcome::Started(client)), Step::Finished(Ok(())));
    c
}

fn strings(items: &[&str]) -> Vec<String> {
    items.iter().map(|s| s.to_string()).collect()
}

const COMMAND: &str = "load-module libpipewire-module-raop-discover stream.rules = [ { matches = [ { raop.ip = \"10.0.0.5\" } ] actions = { create-stream = { stream.props = { } } } } ]\n";

#[test]
fn a_new_connector_is_disconnected() {
    let c = connector();
    assert_eq!(c.phase(), Phase::Disconnected);
    assert!(!c.is_connected());
    assert_eq!(c.connected_airplay(), None);
    assert_eq!(c.state_topic, "snapnode/100/state");
    assert_eq!(c.state_topic(), "snapnode/100/state");
}

#[test]
fn pair_new_keeps_both_processes() {
    let pair = AirplayConnected::new(11, 12);
    assert_eq!(pair.pipewire, 11);
    assert_eq!(pair.snapclient, 12);
}

#[test]
fn agent_command_names_the_address() {
    assert_eq!(agent_command_text("10.0.0.5"), COMMAND);
}

#[test]
fn client_arguments_name_session_and_address() {
    assert_eq!(
        client_argument_texts("10.0.0.5", 100),
        strings(&["-i", "100", "-s", "10.0.0.5", "--player", "pulse", "--mixer", "hardware"])
    );
}

#[test]
fn settle_time_is_five_seconds() {
    assert_eq!(SETTLE_MILLIS, 5000);
}

#[test]
fn connect_goes_through_agent_command_settle_and_client() {
    let mut c = connector();
    assert_eq!(
        c.connect(),
        Step::Perform(Action::StartAgent { program: "pw-cli".to_string() })
    );
    assert_eq!(c.phase(), Phase::StartingAgent);
    assert_eq!(
        c.advance(Outcome::Started(41)),
        Step::Perform(Action::SendAgentCommand { agent: 41, command: COMMAND.to_string() })
    );
    assert_eq!(c.phase(), Phase::CommandingAgent { agent: 41 });
    assert_eq!(
        c.advance(Outcome::Completed),
        Step::Perform(Action::Settle { millis: 5000 })
    );
    assert_eq!(c.phase(), Phase::Settling { agent: 41 });
    assert_eq!(
        c.advance(Outcome::Completed),
        Step::Perform(Action::StartClient {
            program: "snapclient".to_string(),
            arguments: strings(&[
                "-i", "100", "-s", "10.0.0.5", "--player", "pulse", "--mixer", "hardware"
            ]),
        })
    );
    assert_eq!(c.phase(), Phase::StartingClient { agent: 41 });
    assert!(!c.is_connected());
    assert_eq!(c.advance(Outcome::Started(42)), Step::Finished(Ok(())));
    assert!(c.is_connected());
    assert_eq!(
        c.connected_airplay(),
        Some(AirplayConnected { pipewire: 41, snapclient: 42 })
    );
}

#[test]
fn connect_twice_acquires_once() {
    let mut c = connected(41, 42);
    assert_eq!(c.connect(), Step::Finished(Ok(())));
    assert_eq!(
        c.phase(),
        Phase::Connected { pair: AirplayConnected { pipewire: 41, snapclient: 42 } }
    );
    assert_eq!(c.connect(), Step::Finished(Ok(())));
    assert!(c.is_connected());
}

#[test]
fn disconnect_stops_the_client_before_the_agent() {
    let mut c = connected(41, 42);
    assert_eq!(c.disconnect(), Step::Perform(Action::Kill { process: 42 }));
    assert!(!c.is_connected());
    assert_eq!(c.advance(Outcome::Completed), Step::Perform(Action::Wait { process: 42 }));
    assert_eq!(c.advance(Outcome::Completed), Step::Perform(Action::Kill { process: 41 }));
    assert_eq!(c.advance(Outcome::Completed), Step::Perform(Action::Wait { process: 41 }));
    assert_eq!(c.advance(Outcome::Completed), Step::Finished(Ok(())));
    assert_eq!(c.phase(), Phase::Disconnected);
    assert_eq!(c.connected_airplay(), None);
}

#[test]
fn disconnect_twice_releases_once() {
    let mut c = connected(41, 42);
    c.disconnect();
    for _ in 0..3 {
        c.advance(Outcome::Completed);
    }
    assert_eq!(c.advance(Outcome::Completed), Step::Finished(Ok(())));
    assert_eq!(c.disconnect(), Step::Finished(Ok(())));
    assert_eq!(c.phase(), Phase::Disconnected);
}

#[test]
fn disconnect_of_a_new_connector_does_nothing() {
    let mut c = connector();
    assert_eq!(c.disconnect(), Step::Finished(Ok(())));
    assert_eq!(c.phase(), Phase::Disconnected);
}

#[test]
fn disconnect_succeeds_though_every_stop_and_wait_fails() {
    let mut c = connected(41, 42);
    assert_eq!(c.disconnect(), Step::Perform(Action::Kill { process: 42 }));
    assert_eq!(c.advance(Outcome::Failed), Step::Perform(Action::Wait { process: 42 }));
    assert_eq!(c.advance(Outcome::Failed), Step::Perform(Action::Kill { process: 41 }));
    assert_eq!(c.advance(Outcome::Failed), Step::Perform(Action::Wait { process: 41 }));
    assert_eq!(c.advance(Outcome::Failed), Step::Finished(Ok(())));
    assert_eq!(c.phase(), Phase::Disconnected);
    assert!(!c.is_connected());
    assert_eq!(c.connected_airplay(), None);
}

#[test]
fn agent_start_failure_ends_the_request_at_once() {
    let mut c = connector();
    c.connect();
    assert_eq!(c.advance(Outcome::Failed), Step::Finished(Err(ConnectError::AgentStart)));
    assert_eq!(c.phase(), Phase::Disconnected);
}

#[test]
fn agent_command_failure_stops_the_agent_and_never_starts_the_client() {
    let mut c = connector();
    c.connect();
    c.advance(Outcome::Started(41));
    assert_eq!(c.advance(Outcome::Failed), Step::Perform(Action::Kill { process: 41 }));
    assert_eq!(
        c.phase(),
        Phase::StoppingAgent { agent: 41, error: Some(ConnectError::AgentCommand) }
    );
    assert_eq!(c.advance(Outcome::Completed), Step::Perform(Action::Wait { process: 41 }));
    assert_eq!(
        c.advance(Outcome::Completed),
        Step::Finished(Err(ConnectError::AgentCommand))
    );
    assert_eq!(c.phase(), Phase::Disconnected);
}

#[test]
fn client_start_failure_stops_the_agent_before_the_error() {
    let mut c = connector();
    c.connect();
    c.advance(Outcome::Started(41));
    c.advance(Outcome::Completed);
    c.advance(Outcome::Completed);
    assert_eq!(c.advance(Outcome::Failed), Step::Perform(Action::Kill { process: 41 }));
    assert!(!c.is_connected());
    assert_eq!(c.advance(Outcome::Failed), Step::Perform(Action::Wait { process: 41 }));
    assert_eq!(
        c.advance(Outcome::Failed),
        Step::Finished(Err(ConnectError::ClientStart))
    );
    assert_eq!(c.phase(), Phase::Disconnected);
    assert_eq!(c.connected_airplay(), None);
}

#[test]
fn a_failed_connect_can_be_tried_again() {
    let mut c = connector();
    c.connect();
    assert_eq!(c.advance(Outcome::Failed), Step::Finished(Err(ConnectError::AgentStart)));
    assert_eq!(
        c.connect(),
        Step::Perform(Action::StartAgent { program: "pw-cli".to_string() })
    );
}

#[test]
fn the_settle_outcome_does_not_matter() {
    let mut c = connector();
    c.connect();
    c.advance(Outcome::Started(41));
    c.advance(Outcome::Completed);
    let step = c.advance(Outcome::Failed);
    assert!(matches!(step, Step::Perform(Action::StartClient { .. })));
}

#[test]
fn an_outcome_of_the_wrong_kind_counts_as_failure() {
    let mut c = connector();
    c.connect();
    assert_eq!(c.advance(Outcome::Completed), Step::Finished(Err(ConnectError::AgentStart)));
    let mut c = connector();
    c.connect();
    c.advance(Outcome::Started(41));
    assert_eq!(c.advance(Outcome::Started(9)), Step::Perform(Action::Kill { process: 41 }));
}

#[test]
fn requests_are_refused_while_one_is_served() {
    let mut c = connector();
    c.connect();
    assert_eq!(c.connect(), Step::Refused);
    assert_eq!(c.disconnect(), Step::Refused);
    assert_eq!(c.phase(), Phase::StartingAgent);
    let mut c = connected(41, 42);
    c.disconnect();
    assert_eq!(c.connect(), Step::Refused);
    assert_eq!(c.disconnect(), Step::Refused);
    assert_eq!(
        c.phase(),
        Phase::StoppingClient { pair: AirplayConnected { pipewire: 41, snapclient: 42 } }
    );
}

#[test]
fn outcomes_are_refused_at_rest() {
    let mut c = connector();
    assert_eq!(c.advance(Outcome::Completed), Step::Refused);
    assert_eq!(c.phase(), Phase::Disconnected);
    let mut c = connected(41, 42);
    assert_eq!(c.advance(Outcome::Failed), Step::Refused);
    assert!(c.is_connected());
}

#[test]
fn reconnect_after_disconnect_starts_anew() {
    let mut c = connected(41, 42);
    c.disconnect();
    for _ in 0..4 {
        c.advance(Outcome::Completed);
    }
    assert_eq!(
        c.connect(),
        Step::Perform(Action::StartAgent { program: "pw-cli".to_string() })
    );
    c.advance(Outcome::Started(51));
    c.advance(Outcome::Completed);
    c.advance(Outcome::Completed);
    assert_eq!(c.advance(Outcome::Started(52)), Step::Finished(Ok(())));
    assert_eq!(
        c.connected_airplay(),
        Some(AirplayConnected { pipewire: 51, snapclient: 52 })
    );
}

#[test]
fn errors_are_described_by_the_step_that_failed() {
    assert_eq!(ConnectError::AgentStart.describe(), "Failed to spawn pw-cli");
    assert_eq!(ConnectError::AgentCommand.describe(), "Couldn't write command to pw-cli");
    assert_eq!(ConnectError::ClientStart.describe(), "Failed to spawn snapclient");
}

#[test]
fn release_of_a_disconnected_connector_stops_nothing() {
    let mut c = connector();
    assert_eq!(c.release(), vec![]);
    assert_eq!(c.phase(), Phase::Disconnected);
}

#[test]
fn release_of_a_connected_connector_stops_the_client_then_the_agent() {
    let mut c = connected(41, 42);
    assert_eq!(
        c.release(),
        vec![
            Action::Kill { process: 42 },
            Action::Wait { process: 42 },
            Action::Kill { process: 41 },
            Action::Wait { process: 41 },
        ]
    );
    assert_eq!(c.phase(), Phase::Disconnected);
    assert!(!c.is_connected());
    assert_eq!(c.release(), vec![]);
}

#[test]
fn release_while_connecting_stops_the_agent_once_it_runs() {
    let mut c = connector();
    c.connect();
    assert_eq!(c.release(), vec![]);
    assert_eq!(c.phase(), Phase::Disconnected);

    let stop_agent = vec![Action::Kill { process: 41 }, Action::Wait { process: 41 }];
    let mut c = connector();
    c.connect();
    c.advance(Outcome::Started(41));
    assert_eq!(c.release(), stop_agent);
    assert_eq!(c.phase(), Phase::Disconnected);

    let mut c = connector();
    c.connect();
    c.advance(Outcome::Started(41));
    c.advance(Outcome::Completed);
    assert_eq!(c.release(), stop_agent);

    let mut c = connector();
    c.connect();
    c.advance(Outcome::Started(41));
    c.advance(Outcome::Completed);
    c.advance(Outcome::Completed);
    assert_eq!(c.release(), stop_agent);

    let mut c = connector();
    c.connect();
    c.advance(Outcome::Started(41));
    c.advance(Outcome::Failed);
    assert_eq!(c.release(), stop_agent);
    assert_eq!(c.phase(), Phase::Disconnected);
}

#[test]
fn release_while_disconnecting_stops_what_may_still_run() {
    let all = vec![
        Action::Kill { process: 42 },
        Action::Wait { process: 42 },
        Action::Kill { process: 41 },
        Action::Wait { process: 41 },
    ];
    let mut c = connected(41, 42);
    c.disconnect();
    assert_eq!(c.release(), all);
    let mut c = connected(41, 42);
    c.disconnect();
    c.advance(Outcome::Completed);
    assert_eq!(c.release(), all);
    let mut c = connected(41, 42);
    c.disconnect();
    c.advance(Outcome::Completed);
    c.advance(Outcome::Completed);
    assert_eq!(
        c.release(),
        vec![Action::Kill { process: 41 }, Action::Wait { process: 41 }]
    );
    assert_eq!(c.phase(), Phase::Disconnected);
}
