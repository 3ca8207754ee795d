//! The command router: from a message on the bus to the connector of the
//! device it is for, and from the connector's result to the state to report.
//!
//! A [`Router`] holds the connectors by command topic and serves one command
//! at a time. Like a connector it only decides: [`Router::handle_message`] and
//! [`Router::advance`] answer with a [`Dispatch`], the caller carries out the
//! action in it and reports the outcome, until the answer is the report to
//! publish.

use crate::bus::{
    command_of, parse_command, reported_state, state_after, state_message, state_report, Publish,
    PublishView, Switch,
};
use crate::connect_airplay::{
    action_views, release_actions, Action, ActionView, AirplayConnector, ConnectError,
    ConnectorView, Outcome, Phase, Step, StepView,
};
use vstd::prelude::*;

verus! {

/// The state to publish once a command was served, and what went wrong in
/// serving it, if anything did.
#[derive(Debug, PartialEq, Eq)]
pub struct StateReport {
    pub publish: Publish,
    pub error: Option<ConnectError>,
}

/// A router's answer to a call.
#[derive(Debug, PartialEq, Eq)]
pub enum Dispatch {
    /// The message is for no device of this router, or carries no command.
    /// Nothing changed and nothing is to be done.
    Ignored,
    /// Carry out the action, then report its outcome to [`Router::advance`].
    Perform(Action),
    /// The command was served: publish the state of its device.
    Report(StateReport),
    /// The call does not fit: a message while a command is being served, or
    /// an outcome while none is.
    Refused,
}

/// A [`Dispatch`] as a mathematical value.
pub enum DispatchView {
    Ignored,
    Perform(ActionView),
    Report { publish: PublishView, error: Option<ConnectError> },
    Refused,
}

impl View for Dispatch {
    type V = DispatchView;

    open spec fn view(&self) -> DispatchView {
        match *self {
            Dispatch::Ignored => DispatchView::Ignored,
            Dispatch::Perform(action) => DispatchView::Perform(action@),
            Dispatch::Report(report) => DispatchView::Report {
                publish: report.publish@,
                error: report.error,
            },
            Dispatch::Refused => DispatchView::Refused,
        }
    }
}

/// A [`Router`] as a mathematical value.
pub struct RouterView {
    /// The connectors, each under the command topic of its device.
    pub connectors: Map<Seq<char>, ConnectorView>,
    /// The command that is being served, with the command topic it came on.
    pub serving: Option<(Seq<char>, Switch)>,
}

/// What went wrong, if `result` is a failure.
pub open spec fn error_of(result: Result<(), ConnectError>) -> Option<ConnectError> {
    match result {
        Ok(_) => None,
        Err(error) => Some(error),
    }
}

/// The report on a device whose state goes to `state_topic`, once `command`
/// was served with `result`.
pub open spec fn report_of(
    state_topic: Seq<char>,
    command: Switch,
    result: Result<(), ConnectError>,
) -> DispatchView {
    DispatchView::Report {
        publish: state_message(state_topic, state_after(command, result)),
        error: error_of(result),
    }
}

/// The actions that stop whatever runs for the devices under the topics of
/// `order`, device by device.
pub open spec fn release_all_actions(
    connectors: Map<Seq<char>, ConnectorView>,
    order: Seq<Seq<char>>,
) -> Seq<ActionView>
    decreases order.len(),
{
    if order.len() == 0 {
        Seq::empty()
    } else {
        release_all_actions(connectors, order.drop_last()) + release_actions(
            connectors[order.last()].phase,
        )
    }
}

impl RouterView {
    /// The router with every device given up: each connector disconnected,
    /// and no command being served.
    pub open spec fn released(self) -> RouterView {
        RouterView {
            connectors: self.connectors.map_values(
                |connector: ConnectorView| connector.in_phase(Phase::Disconnected),
            ),
            serving: None,
        }
    }

    /// The request that `command` makes of the connector under `topic`.
    pub open spec fn request(self, topic: Seq<char>, command: Switch) -> (
        ConnectorView,
        StepView,
    ) {
        match command {
            Switch::On => self.connectors[topic].request_connect(),
            Switch::Off => self.connectors[topic].request_disconnect(),
        }
    }

    /// The router and its answer once the connector under `topic`, serving
    /// `command`, has become `served.0` and answered `served.1`.
    pub open spec fn settle(
        self,
        topic: Seq<char>,
        command: Switch,
        served: (ConnectorView, StepView),
    ) -> (RouterView, DispatchView) {
        let connectors = self.connectors.insert(topic, served.0);
        match served.1 {
            StepView::Perform(action) => (
                RouterView { connectors, serving: Some((topic, command)) },
                DispatchView::Perform(action),
            ),
            StepView::Finished(result) => (
                RouterView { connectors, serving: None },
                report_of(served.0.state_topic, command, result),
            ),
            StepView::Refused => (RouterView { connectors, serving: None }, DispatchView::Refused),
        }
    }

    /// A message with `payload` on `topic`. It is refused while a command is
    /// being served, and ignored unless a connector is registered under
    /// `topic` and `payload` is a command; otherwise the command is put to
    /// that connector.
    pub open spec fn handle_message(self, topic: Seq<char>, payload: Seq<u8>) -> (
        RouterView,
        DispatchView,
    ) {
        if self.serving is Some {
            (self, DispatchView::Refused)
        } else if !self.connectors.dom().contains(topic) {
            (self, DispatchView::Ignored)
        } else {
            match command_of(payload) {
                None => (self, DispatchView::Ignored),
                Some(command) => self.settle(topic, command, self.request(topic, command)),
            }
        }
    }

    /// The report of how the pending action went. It is refused while no
    /// command is being served.
    pub open spec fn advance(self, outcome: Outcome) -> (RouterView, DispatchView) {
        match self.serving {
            None => (self, DispatchView::Refused),
            Some((topic, command)) => self.settle(
                topic,
                command,
                self.connectors[topic].advance(outcome),
            ),
        }
    }
}

/// A connector under its command topic.
#[derive(Debug)]
struct Route {
    command_topic: String,
    connector: AirplayConnector,
}

/// The command that a router is serving, and the place of its connector.
#[derive(Clone, Copy, Debug)]
struct Serving {
    route: usize,
    command: Switch,
}

/// The connectors of a node by command topic, and the command that is being
/// served, if one is.
#[derive(Debug)]
pub struct Router {
    routes: Vec<Route>,
    serving: Option<Serving>,
}

/// Whether the route at `i` is the one under `topic`.
spec fn is_route(routes: Seq<Route>, topic: Seq<char>, i: int) -> bool {
    0 <= i < routes.len() && routes[i].command_topic@ == topic
}

/// Whether no two routes have one topic.
spec fn distinct(routes: Seq<Route>) -> bool {
    forall|i: int, j: int|
        0 <= i < routes.len() && 0 <= j < routes.len() && i != j
            ==> routes[i].command_topic@ != routes[j].command_topic@
}

/// The connectors of `routes` by topic.
spec fn connectors_of(routes: Seq<Route>) -> Map<Seq<char>, ConnectorView> {
    Map::new(
        |topic: Seq<char>| exists|i: int| is_route(routes, topic, i),
        |topic: Seq<char>| routes[choose|i: int| is_route(routes, topic, i)].connector@,
    )
}

/// Each route is registered under its topic.
proof fn lemma_route_is_registered(routes: Seq<Route>, i: int)
    requires
        distinct(routes),
        0 <= i < routes.len(),
    ensures
        connectors_of(routes).dom().contains(routes[i].command_topic@),
        connectors_of(routes)[routes[i].command_topic@] == routes[i].connector@,
{
    let topic = routes[i].command_topic@;
    assert(is_route(routes, topic, i));
    let chosen = choose|k: int| is_route(routes, topic, k);
    assert(chosen == i);
}

/// A change to the connector of the route at `i` is a change to the
/// connector under its topic, and to nothing else.
proof fn lemma_route_replaced(before: Seq<Route>, after: Seq<Route>, i: int)
    requires
        distinct(before),
        0 <= i < before.len(),
        after.len() == before.len(),
        forall|k: int|
            0 <= k < before.len() ==> after[k].command_topic@ == before[k].command_topic@,
        forall|k: int| 0 <= k < before.len() && k != i ==> after[k] == before[k],
    ensures
        distinct(after),
        connectors_of(after) == connectors_of(before).insert(
            before[i].command_topic@,
            after[i].connector@,
        ),
{
    assert(distinct(after));
    let expected = connectors_of(before).insert(before[i].command_topic@, after[i].connector@);
    assert forall|topic: Seq<char>| #[trigger]
        connectors_of(after).dom().contains(topic) == expected.dom().contains(topic) by {
        if connectors_of(after).dom().contains(topic) {
            let k = choose|k: int| is_route(after, topic, k);
            assert(is_route(before, topic, k));
        }
        if expected.dom().contains(topic) {
            if topic == before[i].command_topic@ {
                assert(is_route(after, topic, i));
            } else {
                let k = choose|k: int| is_route(before, topic, k);
                assert(is_route(after, topic, k));
            }
        }
    }
    assert forall|topic: Seq<char>| #[trigger]
        connectors_of(after).dom().contains(topic) implies connectors_of(after)[topic]
        == expected[topic] by {
        let k = choose|k: int| is_route(after, topic, k);
        lemma_route_is_registered(after, k);
        if k != i {
            assert(is_route(before, topic, k));
            lemma_route_is_registered(before, k);
        }
    }
    assert(connectors_of(after) =~= expected);
}

/// A route under a new topic registers its connector under that topic.
proof fn lemma_route_added(before: Seq<Route>, route: Route)
    requires
        distinct(before),
        forall|k: int| !is_route(before, route.command_topic@, k),
    ensures
        distinct(before.push(route)),
        connectors_of(before.push(route)) == connectors_of(before).insert(
            route.command_topic@,
            route.connector@,
        ),
{
    let after = before.push(route);
    let last = before.len() as int;
    assert forall|i: int, j: int|
        0 <= i < after.len() && 0 <= j < after.len() && i != j implies after[i].command_topic@
        != after[j].command_topic@ by {
        if i == last {
            assert(!is_route(before, route.command_topic@, j));
        }
        if j == last {
            assert(!is_route(before, route.command_topic@, i));
        }
    }
    let expected = connectors_of(before).insert(route.command_topic@, route.connector@);
    assert forall|topic: Seq<char>| #[trigger]
        connectors_of(after).dom().contains(topic) == expected.dom().contains(topic) by {
        if connectors_of(after).dom().contains(topic) {
            let k = choose|k: int| is_route(after, topic, k);
            if k != last {
                assert(is_route(before, topic, k));
            }
        }
        if expected.dom().contains(topic) {
            if topic == route.command_topic@ {
                assert(is_route(after, topic, last));
            } else {
                let k = choose|k: int| is_route(before, topic, k);
                assert(is_route(after, topic, k));
            }
        }
    }
    assert forall|topic: Seq<char>| #[trigger]
        connectors_of(after).dom().contains(topic) implies connectors_of(after)[topic]
        == expected[topic] by {
        let k = choose|k: int| is_route(after, topic, k);
        lemma_route_is_registered(after, k);
        if k != last {
            assert(is_route(before, topic, k));
            lemma_route_is_registered(before, k);
        }
    }
    assert(connectors_of(after) =~= expected);
}

impl View for Router {
    type V = RouterView;

    closed spec fn view(&self) -> RouterView {
        RouterView {
            connectors: connectors_of(self.routes@),
            serving: match self.serving {
                Some(serving) => Some(
                    (self.routes[serving.route as int].command_topic@, serving.command),
                ),
                None => None,
            },
        }
    }
}

impl Router {
    /// Whether the router is fit for use: no two connectors stand under one
    /// topic, and the connector of the command being served is one of them.
    pub closed spec fn wf(&self) -> bool {
        &&& distinct(self.routes@)
        &&& self.serving matches Some(serving) ==> serving.route < self.routes.len()
    }

    /// A router without connectors.
    pub fn new() -> (router: Self)
        ensures
            router.wf(),
            router@ == (RouterView { connectors: Map::empty(), serving: None }),
    {
        let router = Router { routes: Vec::new(), serving: None };
        assert(router@.connectors =~= Map::empty());
        router
    }

    /// Puts `connector` under `command_topic`, in place of the connector that
    /// stood there, if one did; that one is handed back.
    pub fn insert(&mut self, command_topic: String, connector: AirplayConnector) -> (replaced:
        Option<AirplayConnector>)
        requires
            old(self).wf(),
        ensures
            final(self).wf(),
            final(self)@.connectors == old(self)@.connectors.insert(command_topic@, connector@),
            final(self)@.serving == old(self)@.serving,
            match replaced {
                Some(replaced) => old(self)@.connectors.dom().contains(command_topic@)
                    && replaced@ == old(self)@.connectors[command_topic@],
                None => !old(self)@.connectors.dom().contains(command_topic@),
            },
    {
        let route = Route { command_topic, connector };
        match self.position(&route.command_topic) {
            Some(i) => {
                proof {
                    lemma_route_is_registered(self.routes@, i as int);
                }
                let ghost before = self.routes@;
                let mut swapped = route;
                std::mem::swap(&mut self.routes[i], &mut swapped);
                proof {
                    lemma_route_replaced(before, self.routes@, i as int);
                }
                Some(swapped.connector)
            },
            None => {
                proof {
                    lemma_route_added(self.routes@, route);
                    assert(!connectors_of(self.routes@).dom().contains(route.command_topic@)) by {
                        if connectors_of(self.routes@).dom().contains(route.command_topic@) {
                            let k = choose|k: int|
                                is_route(self.routes@, route.command_topic@, k);
                            assert(is_route(self.routes@, route.command_topic@, k));
                        }
                    }
                }
                self.routes.push(route);
                None
            },
        }
    }

    /// The number of connectors.
    pub fn len(&self) -> (count: usize)
        requires
            self.wf(),
        ensures
            count == self@.connectors.dom().len(),
            self@.connectors.dom().finite(),
    {
        proof {
            lemma_count(self.routes@);
        }
        self.routes.len()
    }

    /// Whether a command is being served.
    pub fn is_serving(&self) -> (serving: bool)
        ensures
            serving == self@.serving.is_some(),
    {
        self.serving.is_some()
    }

    /// The connector under `command_topic`.
    pub fn connector(&self, command_topic: &str) -> (connector: Option<&AirplayConnector>)
        requires
            self.wf(),
        ensures
            match connector {
                Some(connector) => self@.connectors.dom().contains(command_topic@)
                    && connector@ == self@.connectors[command_topic@],
                None => !self@.connectors.dom().contains(command_topic@),
            },
    {
        let wanted = String::from_str(command_topic);
        match self.position(&wanted) {
            Some(i) => {
                proof {
                    lemma_route_is_registered(self.routes@, i as int);
                }
                Some(&self.routes[i].connector)
            },
            None => {
                proof {
                    self.lemma_unknown(command_topic@);
                }
                None
            },
        }
    }

    /// Takes a message that came with `payload` on `topic`.
    ///
    /// A message on a topic under which no connector stands changes nothing
    /// and asks for nothing, and so does one whose payload is neither `ON`
    /// nor `OFF`.
    pub fn handle_message(&mut self, topic: &str, payload: &[u8]) -> (dispatch: Dispatch)
        requires
            old(self).wf(),
        ensures
            final(self).wf(),
            final(self)@ == old(self)@.handle_message(topic@, payload@).0,
            dispatch@ == old(self)@.handle_message(topic@, payload@).1,
            !old(self)@.connectors.dom().contains(topic@) ==> final(self)@ == old(self)@ && (
            dispatch@ is Ignored || dispatch@ is Refused),
            command_of(payload@) is None ==> final(self)@ == old(self)@ && (dispatch@ is Ignored
                || dispatch@ is Refused),
            old(self)@.serving is None && dispatch@ is Ignored ==> !old(
                self,
            )@.connectors.dom().contains(topic@) || command_of(payload@) is None,
    {
        if self.serving.is_some() {
            return Dispatch::Refused;
        }
        let wanted = String::from_str(topic);
        let found = self.position(&wanted);
        let command = parse_command(payload);
        match (found, command) {
            (Some(i), Some(command)) => {
                proof {
                    lemma_route_is_registered(self.routes@, i as int);
                }
                let step = match command {
                    Switch::On => self.routes[i].connector.connect(),
                    Switch::Off => self.routes[i].connector.disconnect(),
                };
                self.settle(Ghost(old(self).routes@), i, command, step)
            },
            (None, _) => {
                proof {
                    self.lemma_unknown(topic@);
                }
                Dispatch::Ignored
            },
            (Some(i), None) => {
                proof {
                    lemma_route_is_registered(self.routes@, i as int);
                }
                Dispatch::Ignored
            },
        }
    }

    /// Takes the outcome of the action that the last answer asked for.
    pub fn advance(&mut self, outcome: Outcome) -> (dispatch: Dispatch)
        requires
            old(self).wf(),
        ensures
            final(self).wf(),
            final(self)@ == old(self)@.advance(outcome).0,
            dispatch@ == old(self)@.advance(outcome).1,
    {
        match self.serving {
            None => Dispatch::Refused,
            Some(serving) => {
                proof {
                    lemma_route_is_registered(self.routes@, serving.route as int);
                }
                let step = self.routes[serving.route].connector.advance(outcome);
                self.settle(Ghost(old(self).routes@), serving.route, serving.command, step)
            },
        }
    }

    /// Gives every device up, as when the node shuts down: every connector is
    /// disconnected at once, no command is being served any more, and the
    /// actions that stop what ran are handed out, device by device in some
    /// order. They are to be carried out in their order, each whatever came of
    /// the one before; their outcomes are not reported.
    pub fn release_all(&mut self) -> (actions: Vec<Action>)
        requires
            old(self).wf(),
        ensures
            final(self).wf(),
            final(self)@ == old(self)@.released(),
            exists|order: Seq<Seq<char>>|
                {
                    &&& order.no_duplicates()
                    &&& order.to_set() == old(self)@.connectors.dom()
                    &&& action_views(actions@) == #[trigger] release_all_actions(
                        old(self)@.connectors,
                        order,
                    )
                },
    {
        let ghost before = self.routes@;
        let ghost order = topics_of(before);
        let mut actions: Vec<Action> = Vec::new();
        let mut i: usize = 0;
        assert(order.take(0) =~= Seq::<Seq<char>>::empty());
        assert(action_views(actions@) =~= Seq::<ActionView>::empty());
        while i < self.routes.len()
            invariant
                distinct(before),
                order == topics_of(before),
                i <= before.len(),
                self.routes@.len() == before.len(),
                forall|k: int|
                    0 <= k < before.len() ==> self.routes@[k].command_topic@
                        == before[k].command_topic@,
                forall|k: int|
                    0 <= k < i ==> self.routes@[k].connector@ == before[k].connector@.in_phase(
                        Phase::Disconnected,
                    ),
                forall|k: int| i <= k < before.len() ==> self.routes@[k] == before[k],
                action_views(actions@) == release_all_actions(
                    connectors_of(before),
                    order.take(i as int),
                ),
            decreases before.len() - i,
        {
            let ghost sofar = action_views(actions@);
            let mut released = self.routes[i].connector.release();
            let ghost added = action_views(released@);
            actions.append(&mut released);
            proof {
                lemma_route_is_registered(before, i as int);
                assert(order.take(i + 1).drop_last() =~= order.take(i as int));
                assert(order.take(i + 1).last() == before[i as int].command_topic@);
                assert(action_views(actions@) =~= sofar + added);
            }
            i += 1;
        }
        self.serving = None;
        proof {
            assert(order.take(before.len() as int) =~= order);
            lemma_topics(before);
            let after = self.routes@;
            assert(distinct(after));
            let expected = connectors_of(before).map_values(
                |connector: ConnectorView| connector.in_phase(Phase::Disconnected),
            );
            assert forall|topic: Seq<char>| #[trigger]
                connectors_of(after).dom().contains(topic) == expected.dom().contains(topic) by {
                if connectors_of(after).dom().contains(topic) {
                    let k = choose|k: int| is_route(after, topic, k);
                    assert(is_route(before, topic, k));
                }
                if expected.dom().contains(topic) {
                    let k = choose|k: int| is_route(before, topic, k);
                    assert(is_route(after, topic, k));
                }
            }
            assert forall|topic: Seq<char>| #[trigger]
                connectors_of(after).dom().contains(topic) implies connectors_of(after)[topic]
                == expected[topic] by {
                let k = choose|k: int| is_route(after, topic, k);
                lemma_route_is_registered(after, k);
                assert(is_route(before, topic, k));
                lemma_route_is_registered(before, k);
            }
            assert(connectors_of(after) =~= expected);
        }
        actions
    }

    /// Books the answer `step` of the connector at `route`, which serves
    /// `command` and was part of `before` until it gave that answer.
    fn settle(
        &mut self,
        Ghost(before): Ghost<Seq<Route>>,
        route: usize,
        command: Switch,
        step: Step,
    ) -> (dispatch: Dispatch)
        requires
            distinct(before),
            route < before.len(),
            old(self).routes@.len() == before.len(),
            forall|k: int|
                0 <= k < before.len() ==> old(self).routes@[k].command_topic@
                    == before[k].command_topic@,
            forall|k: int| 0 <= k < before.len() && k != route ==> old(self).routes@[k] == before[k],
        ensures
            final(self).wf(),
            (final(self)@, dispatch@) == (RouterView {
                connectors: connectors_of(before),
                serving: None,
            }).settle(
                before[route as int].command_topic@,
                command,
                (old(self).routes@[route as int].connector@, step@),
            ),
    {
        proof {
            lemma_route_replaced(before, self.routes@, route as int);
        }
        match step {
            Step::Perform(action) => {
                self.serving = Some(Serving { route, command });
                Dispatch::Perform(action)
            },
            Step::Finished(result) => {
                self.serving = None;
                let state = reported_state(command, result);
                let publish = state_report(self.routes[route].connector.state_topic(), state);
                let error = match result {
                    Ok(_) => None,
                    Err(error) => Some(error),
                };
                Dispatch::Report(StateReport { publish, error })
            },
            Step::Refused => {
                self.serving = None;
                Dispatch::Refused
            },
        }
    }

    /// The place of the route under `topic`.
    fn position(&self, topic: &String) -> (found: Option<usize>)
        ensures
            match found {
                Some(i) => is_route(self.routes@, topic@, i as int),
                None => forall|k: int| !is_route(self.routes@, topic@, k),
            },
    {
        let mut i: usize = 0;
        while i < self.routes.len()
            invariant
                i <= self.routes.len(),
                forall|k: int| 0 <= k < i ==> !is_route(self.routes@, topic@, k),
            decreases self.routes.len() - i,
        {
            if self.routes[i].command_topic == *topic {
                return Some(i);
            }
            i += 1;
        }
        None
    }

    /// A topic that no route has is not registered.
    proof fn lemma_unknown(&self, topic: Seq<char>)
        requires
            forall|k: int| !is_route(self.routes@, topic, k),
        ensures
            !self@.connectors.dom().contains(topic),
    {
    }
}

/// The topics of `routes`, in their order.
spec fn topics_of(routes: Seq<Route>) -> Seq<Seq<char>> {
    routes.map_values(|route: Route| route.command_topic@)
}

/// The topics of routes of which no two have one topic are the registered
/// topics, each once.
proof fn lemma_topics(routes: Seq<Route>)
    requires
        distinct(routes),
    ensures
        topics_of(routes).no_duplicates(),
        topics_of(routes).to_set() == connectors_of(routes).dom(),
{
    let topics = topics_of(routes);
    assert forall|topic: Seq<char>|
        topics.to_set().contains(topic) == #[trigger] connectors_of(routes).dom().contains(
            topic,
        ) by {
        if topics.to_set().contains(topic) {
            let k = choose|k: int| 0 <= k < topics.len() && topics[k] == topic;
            assert(is_route(routes, topic, k));
        }
        if connectors_of(routes).dom().contains(topic) {
            let k = choose|k: int| is_route(routes, topic, k);
            assert(topics[k] == topic);
        }
    }
    assert(topics.to_set() =~= connectors_of(routes).dom());
}

/// As many topics are registered as there are routes, where no two routes
/// have one topic.
proof fn lemma_count(routes: Seq<Route>)
    requires
        distinct(routes),
    ensures
        connectors_of(routes).dom().finite(),
        connectors_of(routes).dom().len() == routes.len(),
    decreases routes.len(),
{
    if routes.len() == 0 {
        assert(connectors_of(routes).dom() =~= Set::empty());
    } else {
        let front = routes.drop_last();
        let last = routes.last();
        assert(distinct(front));
        lemma_count(front);
        lemma_route_added(front, last);
        assert(front.push(last) =~= routes);
        assert(!connectors_of(front).dom().contains(last.command_topic@)) by {
            if connectors_of(front).dom().contains(last.command_topic@) {
                let k = choose|k: int| is_route(front, last.command_topic@, k);
                assert(is_route(front, last.command_topic@, k));
            }
        }
    }
}

} // verus!
