//! The bridges of all remote clients: each logical client has its own
//! connection to the child app-server.

use std::collections::HashMap;
use vstd::prelude::*;

use crate::text::{decimal, digits, join3, unsigned_text};

verus! {

broadcast use vstd::std_specs::hash::group_hash_axioms;

/// What happens to the relay's bridges.  Remote connections and the bridges
/// that serve them go by numbers; `M` is what a remote client sends.
#[derive(Debug)]
pub enum BridgeEvent<M> {
    /// The relay shuts down.
    Shutdown,
    /// The remote-control transport will report nothing more.
    TransportClosed,
    /// A remote client has opened a connection.
    Opened { connection: u64 },
    /// The bridge that was asked for was made.
    Connected,
    /// The bridge that was asked for could not be made; `disconnectable` says
    /// whether the remote client can be told.
    ConnectFailed { disconnectable: bool },
    /// A remote client has sent a message.
    Incoming { connection: u64, message: M },
    /// The message was handed to the bridge.
    Delivered,
    /// The bridge takes no more messages.
    DeliveryFailed,
    /// A remote client has closed its connection.
    Closed { connection: u64 },
}

/// What the relay does next for its bridges.
#[derive(Debug)]
pub enum BridgeAction<M> {
    /// Wait for the next event.
    Listen,
    /// Make a bridge for a connection.
    Connect { connection: u64 },
    /// Keep the bridge that was just made under this number, abort the one that it
    /// takes the place of, if there is one, and wait for the next event.
    Keep { bridge: u64, abort: Option<u64> },
    /// Abort a bridge, then wait for the next event.
    Abort { bridge: u64 },
    /// Report that there is no bridge for a connection, disconnect its client
    /// if `disconnect`, and wait for the next event.
    Refuse { connection: u64, disconnect: bool },
    /// Hand a message to a bridge.
    Deliver { bridge: u64, message: M },
    /// Abort the bridges of these connections, and end in good order.
    Stop { abort: Vec<(u64, u64)> },
    /// End with the error that the transport is gone.
    Fail,
    /// Nothing: the event does not belong here.
    Nothing,
}

pub enum BridgeActionView<M> {
    Listen,
    Connect { connection: u64 },
    Keep { bridge: nat, abort: Option<nat> },
    Abort { bridge: nat },
    Refuse { connection: u64, disconnect: bool },
    Deliver { bridge: nat, message: M },
    Stop { abort: Map<u64, nat> },
    Fail,
    Nothing,
}

/// Whether `pairs` lists the entries of `table`, each once, in whatever order.
pub open spec fn lists(pairs: Seq<(u64, u64)>, table: Map<u64, nat>) -> bool {
    &&& pairs.no_duplicates()
    &&& forall|i: int|
        0 <= i < pairs.len() ==> table.contains_pair((#[trigger] pairs[i]).0, pairs[i].1 as nat)
    &&& forall|connection: u64| #[trigger]
        table.contains_key(connection) ==> pairs.contains((connection, table[connection] as u64))
}

/// Whether an action is the one that `view` describes.
pub open spec fn is_bridge_action<M>(action: BridgeAction<M>, view: BridgeActionView<M>) -> bool {
    match (action, view) {
        (BridgeAction::Listen, BridgeActionView::Listen) => true,
        (BridgeAction::Connect { connection: a }, BridgeActionView::Connect { connection: b }) => a
            == b,
        (
            BridgeAction::Keep { bridge: a, abort: c },
            BridgeActionView::Keep { bridge: b, abort: d },
        ) => a == b && match (c, d) {
            (Some(c), Some(d)) => c == d,
            (None, None) => true,
            _ => false,
        },
        (BridgeAction::Abort { bridge: a }, BridgeActionView::Abort { bridge: b }) => a == b,
        (
            BridgeAction::Refuse { connection: a, disconnect: c },
            BridgeActionView::Refuse { connection: b, disconnect: d },
        ) => a == b && c == d,
        (
            BridgeAction::Deliver { bridge: a, message: c },
            BridgeActionView::Deliver { bridge: b, message: d },
        ) => a == b && c == d,
        (BridgeAction::Stop { abort: a }, BridgeActionView::Stop { abort: b }) => lists(a@, b),
        (BridgeAction::Fail, BridgeActionView::Fail) => true,
        (BridgeAction::Nothing, BridgeActionView::Nothing) => true,
        _ => false,
    }
}

/// What the relay is at with its bridges.
#[derive(Debug, Clone, Copy, PartialEq, Eq, Structural)]
pub enum BridgePhase {
    Listening,
    Connecting { connection: u64 },
    Delivering { connection: u64 },
    Ended,
}

/// The state of the relay's bridges: what the relay is at, which bridge serves
/// which connection, and how many bridges were made so far.
pub struct BridgeState {
    pub phase: BridgePhase,
    pub table: Map<u64, nat>,
    pub count: nat,
}

/// The state in which the relay listens.
pub open spec fn listening(table: Map<u64, nat>, count: nat) -> BridgeState {
    BridgeState { phase: BridgePhase::Listening, table, count }
}

/// The state in which the relay begins.
pub open spec fn no_bridges() -> BridgeState {
    listening(Map::empty(), 0)
}

/// What the relay does with an event, and what state it comes to.  Bridges are
/// numbered in the order in which they are made.
pub open spec fn bridge_next<M>(state: BridgeState, event: BridgeEvent<M>) -> (
    BridgeState,
    BridgeActionView<M>,
) {
    let table = state.table;
    let count = state.count;
    match (state.phase, event) {
        (BridgePhase::Listening, BridgeEvent::Shutdown) => (
            BridgeState { phase: BridgePhase::Ended, table: Map::empty(), count },
            BridgeActionView::Stop { abort: table },
        ),
        (BridgePhase::Listening, BridgeEvent::TransportClosed) => (
            BridgeState { phase: BridgePhase::Ended, table: Map::empty(), count },
            BridgeActionView::Fail,
        ),
        (BridgePhase::Listening, BridgeEvent::Opened { connection }) => (
            BridgeState { phase: BridgePhase::Connecting { connection }, ..state },
            BridgeActionView::Connect { connection },
        ),
        (BridgePhase::Listening, BridgeEvent::Incoming { connection, message }) => if table.contains_key(
            connection,
        ) {
            (
                BridgeState { phase: BridgePhase::Delivering { connection }, ..state },
                BridgeActionView::Deliver { bridge: table[connection], message },
            )
        } else {
            (state, BridgeActionView::Listen)
        },
        (BridgePhase::Listening, BridgeEvent::Closed { connection }) => if table.contains_key(
            connection,
        ) {
            (
                listening(table.remove(connection), count),
                BridgeActionView::Abort { bridge: table[connection] },
            )
        } else {
            (state, BridgeActionView::Listen)
        },
        (BridgePhase::Connecting { connection }, BridgeEvent::Connected) => (
            listening(table.insert(connection, count), count + 1),
            BridgeActionView::Keep {
                bridge: count,
                abort: if table.contains_key(connection) {
                    Some(table[connection])
                } else {
                    None
                },
            },
        ),
        (BridgePhase::Connecting { connection }, BridgeEvent::ConnectFailed { disconnectable }) => (
            listening(table, count),
            BridgeActionView::Refuse { connection, disconnect: disconnectable },
        ),
        (BridgePhase::Delivering { connection }, BridgeEvent::Delivered) => (
            listening(table, count),
            BridgeActionView::Listen,
        ),
        (BridgePhase::Delivering { connection }, BridgeEvent::DeliveryFailed) => (
            listening(table.remove(connection), count),
            BridgeActionView::Listen,
        ),
        _ => (state, BridgeActionView::Nothing),
    }
}

/// The relay's bridges.
pub struct Bridges {
    phase: BridgePhase,
    connections: HashMap<u64, u64>,
    count: u64,
}

/// The numbers in a table, as numbers without a limit.
pub open spec fn numbers(table: Map<u64, u64>) -> Map<u64, nat> {
    table.map_values(|bridge: u64| bridge as nat)
}

impl View for Bridges {
    type V = BridgeState;

    closed spec fn view(&self) -> BridgeState {
        BridgeState {
            phase: self.phase,
            table: numbers(self.connections@),
            count: self.count as nat,
        }
    }
}

impl Bridges {
    /// No bridges yet.
    pub fn new() -> (bridges: Bridges)
        ensures
            bridges@ == no_bridges(),
    {
        let bridges = Bridges {
            phase: BridgePhase::Listening,
            connections: HashMap::new(),
            count: 0,
        };
        proof {
            assert(bridges@.table =~= Map::<u64, nat>::empty());
        }
        bridges
    }

    /// Whether there is a number left for another bridge.
    pub fn has_room(&self) -> (room: bool)
        ensures
            room == (self@.count < u64::MAX),
    {
        self.count < u64::MAX
    }

    /// The bridges with the connections that they serve.
    pub fn entries(&self) -> (pairs: Vec<(u64, u64)>)
        ensures
            lists(pairs@, self@.table),
    {
        let mut pairs: Vec<(u64, u64)> = Vec::new();
        let ghost entries = vstd::std_specs::iter::IteratorSpec::remaining(&self.connections.iter());
        for pair in it: self.connections.iter()
            invariant
                entries.no_duplicates(),
                it.seq() == entries,
                pairs@.len() == it.index(),
                forall|i: int| 0 <= i < pairs@.len() ==> pairs@[i] == (*it.seq()[i].0, *it.seq()[i].1),
        {
            pairs.push((*pair.0, *pair.1));
        }
        proof {
            let held = self.connections@;
            let table = self@.table;
            assert(pairs@.len() == entries.len());
            assert forall|i: int, j: int|
                0 <= i < pairs@.len() && 0 <= j < pairs@.len() && i != j implies pairs@[i]
                != pairs@[j] by {
                assert(entries[i] != entries[j]);
            }
            assert forall|i: int| 0 <= i < pairs@.len() implies table.contains_pair(
                (#[trigger] pairs@[i]).0,
                pairs@[i].1 as nat,
            ) by {
                assert(held.contains_key(*entries[i].0));
            }
            assert forall|connection: u64| #[trigger] table.contains_key(connection) implies pairs@.contains(
                (connection, table[connection] as u64),
            ) by {
                assert(entries.contains((&connection, &held[connection])));
                let i = choose|i: int|
                    0 <= i < entries.len() && entries[i] == (&connection, &held[connection]);
                assert(pairs@[i] == (connection, held[connection]));
            }
        }
        pairs
    }

    /// Takes an event of the transport, of a bridge, or of the relay.
    pub fn bridge_connections<M>(&mut self, event: BridgeEvent<M>) -> (action: BridgeAction<M>)
        requires
            event is Connected ==> old(self)@.count < u64::MAX,
        ensures
            final(self)@ == bridge_next(old(self)@, event).0,
            is_bridge_action(action, bridge_next(old(self)@, event).1),
    {
        let ghost before = self@;
        let action = match (self.phase, event) {
            (BridgePhase::Listening, BridgeEvent::Shutdown) => {
                let abort = self.entries();
                self.phase = BridgePhase::Ended;
                self.connections.clear();
                BridgeAction::Stop { abort }
            },
            (BridgePhase::Listening, BridgeEvent::TransportClosed) => {
                self.phase = BridgePhase::Ended;
                self.connections.clear();
                BridgeAction::Fail
            },
            (BridgePhase::Listening, BridgeEvent::Opened { connection }) => {
                self.phase = BridgePhase::Connecting { connection };
                BridgeAction::Connect { connection }
            },
            (BridgePhase::Listening, BridgeEvent::Incoming { connection, message }) => {
                match self.connections.get(&connection) {
                    Some(bridge) => {
                        let bridge: u64 = *bridge;
                        self.phase = BridgePhase::Delivering { connection };
                        BridgeAction::Deliver { bridge, message }
                    },
                    None => BridgeAction::Listen,
                }
            },
            (BridgePhase::Listening, BridgeEvent::Closed { connection }) => {
                match self.connections.remove(&connection) {
                    Some(bridge) => BridgeAction::Abort { bridge },
                    None => BridgeAction::Listen,
                }
            },
            (BridgePhase::Connecting { connection }, BridgeEvent::Connected) => {
                let bridge: u64 = self.count;
                self.phase = BridgePhase::Listening;
                self.count = bridge + 1;
                let abort = self.connections.insert(connection, bridge);
                BridgeAction::Keep { bridge, abort }
            },
            (
                BridgePhase::Connecting { connection },
                BridgeEvent::ConnectFailed { disconnectable },
            ) => {
                self.phase = BridgePhase::Listening;
                BridgeAction::Refuse { connection, disconnect: disconnectable }
            },
            (BridgePhase::Delivering { connection: _ }, BridgeEvent::Delivered) => {
                self.phase = BridgePhase::Listening;
                BridgeAction::Listen
            },
            (BridgePhase::Delivering { connection }, BridgeEvent::DeliveryFailed) => {
                self.phase = BridgePhase::Listening;
                self.connections.remove(&connection);
                BridgeAction::Listen
            },
            _ => BridgeAction::Nothing,
        };
        proof {
            assert(self@.table =~= bridge_next(before, event).0.table);
        }
        action
    }
}

/// What the relay reports when a connection gets no bridge, before the cause.
pub open spec fn refusal_text(connection: u64) -> Seq<char> {
    "Failed to open local bridge for remote connection "@ + digits(connection as nat) + ": "@
}

/// What the relay reports when a connection gets no bridge, before the cause.
pub fn refusal_report(connection: u64) -> (text: String)
    ensures
        text@ == refusal_text(connection),
{
    join3(
        "Failed to open local bridge for remote connection ",
        unsigned_text(connection).as_str(),
        ": ",
    )
}

/// Where the relay comes from `state` by a sequence of events.
pub open spec fn bridge_run<M>(state: BridgeState, events: Seq<BridgeEvent<M>>) -> BridgeState
    decreases events.len(),
{
    if events.len() == 0 {
        state
    } else {
        bridge_next(bridge_run(state, events.drop_last()), events.last()).0
    }
}

/// The connection that an event is about, if it is about one.
pub open spec fn subject<M>(state: BridgeState, event: BridgeEvent<M>) -> Option<u64> {
    match (state.phase, event) {
        (_, BridgeEvent::Opened { connection }) => Some(connection),
        (_, BridgeEvent::Incoming { connection, .. }) => Some(connection),
        (_, BridgeEvent::Closed { connection }) => Some(connection),
        (BridgePhase::Connecting { connection }, _) => Some(connection),
        (BridgePhase::Delivering { connection }, _) => Some(connection),
        _ => None,
    }
}

/// A failure to make the bridge of one client is isolated to that client: no
/// bridge changes, none is aborted, and the relay goes on.
pub proof fn law_failed_connect_is_isolated<M>(
    table: Map<u64, nat>,
    count: nat,
    connection: u64,
    disconnectable: bool,
)
    ensures
        bridge_next(
            BridgeState { phase: BridgePhase::Connecting { connection }, table, count },
            BridgeEvent::<M>::ConnectFailed { disconnectable },
        ) == (
            listening(table, count),
            BridgeActionView::<M>::Refuse { connection, disconnect: disconnectable },
        ),
{
}

/// What happens to one client leaves the bridge of every other as it is.  Only
/// the end of the whole relay reaches them all.
pub proof fn law_clients_do_not_interfere<M>(state: BridgeState, event: BridgeEvent<M>, other: u64)
    requires
        event != BridgeEvent::<M>::Shutdown,
        event != BridgeEvent::<M>::TransportClosed,
        subject(state, event) != Some(other),
    ensures
        bridge_next(state, event).0.table.contains_key(other) == state.table.contains_key(other),
        state.table.contains_key(other) ==> bridge_next(state, event).0.table[other]
            == state.table[other],
{
}

/// A client that has closed its connection has no bridge, and a message under
/// its connection goes nowhere.
pub proof fn law_closed_client_gets_nothing<M>(
    table: Map<u64, nat>,
    count: nat,
    connection: u64,
    message: M,
)
    ensures
        ({
            let after = bridge_next(
                listening(table, count),
                BridgeEvent::<M>::Closed { connection },
            ).0;
            &&& after == listening(table.remove(connection), count)
            &&& bridge_next(after, BridgeEvent::Incoming { connection, message }) == (
                after,
                BridgeActionView::<M>::Listen,
            )
        }),
{
    if !table.contains_key(connection) {
        assert(table.remove(connection) =~= table);
    }
}

/// The bridges that are aborted by a sequence of events.
pub open spec fn aborted<M>(events: Seq<BridgeEvent<M>>) -> Set<nat>
    decreases events.len(),
{
    if events.len() == 0 {
        Set::empty()
    } else {
        let before = aborted(events.drop_last());
        match bridge_next(bridge_run(no_bridges(), events.drop_last()), events.last()).1 {
            BridgeActionView::Keep { abort: Some(bridge), .. } => before.insert(bridge),
            BridgeActionView::Abort { bridge } => before.insert(bridge),
            BridgeActionView::Stop { abort } => before.union(abort.values()),
            _ => before,
        }
    }
}

/// The bridges that are let go by a sequence of events, because they take no
/// more messages or the transport is gone.
pub open spec fn dropped<M>(events: Seq<BridgeEvent<M>>) -> Set<nat>
    decreases events.len(),
{
    if events.len() == 0 {
        Set::empty()
    } else {
        let before = dropped(events.drop_last());
        let at = bridge_run(no_bridges(), events.drop_last());
        match (at.phase, events.last()) {
            (BridgePhase::Delivering { connection }, BridgeEvent::DeliveryFailed) => before.insert(
                at.table[connection],
            ),
            (BridgePhase::Listening, BridgeEvent::TransportClosed) => before.union(
                at.table.values(),
            ),
            _ => before,
        }
    }
}

/// No bridge is forgotten: every bridge that was made serves a connection, was
/// aborted, or was let go because it or the transport had stopped.
pub proof fn law_no_bridge_is_forgotten<M>(events: Seq<BridgeEvent<M>>, bridge: nat)
    requires
        bridge < bridge_run(no_bridges(), events).count,
    ensures
        ({
            ||| bridge_run(no_bridges(), events).table.values().contains(bridge)
            ||| aborted(events).contains(bridge)
            ||| dropped(events).contains(bridge)
        }),
    decreases events.len(),
{
    if events.len() > 0 {
        let init = events.drop_last();
        let at = bridge_run(no_bridges(), init);
        let after = bridge_run(no_bridges(), events);
        if bridge < at.count {
            law_no_bridge_is_forgotten(init, bridge);
            if at.table.values().contains(bridge) {
                let connection = choose|connection: u64| #[trigger]
                    at.table.contains_key(connection) && at.table[connection] == bridge;
                if after.table.contains_key(connection) && after.table[connection] == bridge {
                    assert(after.table.values().contains(bridge));
                }
            }
        } else {
            match at.phase {
                BridgePhase::Connecting { connection } => {
                    assert(after.table.contains_key(connection));
                    assert(after.table[connection] == bridge);
                    assert(after.table.values().contains(bridge));
                },
                _ => {},
            }
        }
    }
}

/// When the relay shuts down, every bridge that still serves a connection is
/// aborted, and none is left.
pub proof fn law_shutdown_aborts_all<M>(table: Map<u64, nat>, count: nat)
    ensures
        bridge_next(listening(table, count), BridgeEvent::<M>::Shutdown) == (
            BridgeState { phase: BridgePhase::Ended, table: Map::empty(), count },
            BridgeActionView::<M>::Stop { abort: table },
        ),
{
}

proof fn lemma_numbers_are_counted<M>(events: Seq<BridgeEvent<M>>, connection: u64)
    requires
        bridge_run(no_bridges(), events).table.contains_key(connection),
    ensures
        bridge_run(no_bridges(), events).table[connection] < bridge_run(no_bridges(), events).count,
    decreases events.len(),
{
    if events.len() > 0 {
        let init = events.drop_last();
        let at = bridge_run(no_bridges(), init);
        let after = bridge_run(no_bridges(), events);
        if at.table.contains_key(connection) {
            lemma_numbers_are_counted(init, connection);
        }
    }
}

/// Every logical client is served by a bridge of its own: no two connections
/// share one.
pub proof fn law_every_client_has_its_own_bridge<M>(events: Seq<BridgeEvent<M>>, a: u64, b: u64)
    requires
        a != b,
        bridge_run(no_bridges(), events).table.contains_key(a),
        bridge_run(no_bridges(), events).table.contains_key(b),
    ensures
        bridge_run(no_bridges(), events).table[a] != bridge_run(no_bridges(), events).table[b],
    decreases events.len(),
{
    if events.len() > 0 {
        let init = events.drop_last();
        let at = bridge_run(no_bridges(), init);
        if at.table.contains_key(a) {
            lemma_numbers_are_counted(init, a);
        }
        if at.table.contains_key(b) {
            lemma_numbers_are_counted(init, b);
        }
        if at.table.contains_key(a) && at.table.contains_key(b) {
            law_every_client_has_its_own_bridge(init, a, b);
        }
    }
}

/// Whether every event comes when the relay is ready for it: the answer to a
/// connect or a delivery comes next, before anything else.
pub open spec fn in_turn<M>(events: Seq<BridgeEvent<M>>) -> bool
    decreases events.len(),
{
    events.len() == 0 || {
        &&& in_turn(events.drop_last())
        &&& !(bridge_next(bridge_run(no_bridges(), events.drop_last()), events.last()).1 is Nothing)
    }
}

/// The messages that are handed to a bridge by a sequence of events, in order.
pub open spec fn delivered_to<M>(events: Seq<BridgeEvent<M>>, bridge: nat) -> Seq<M>
    decreases events.len(),
{
    if events.len() == 0 {
        Seq::empty()
    } else {
        let before = delivered_to(events.drop_last(), bridge);
        match bridge_next(bridge_run(no_bridges(), events.drop_last()), events.last()).1 {
            BridgeActionView::Deliver { bridge: to, message } if to == bridge => before.push(
                message,
            ),
            _ => before,
        }
    }
}

/// The messages that a client has sent under a connection since it was last
/// opened and a bridge was made for it, in order.
pub open spec fn received_from<M>(events: Seq<BridgeEvent<M>>, connection: u64) -> Seq<M>
    decreases events.len(),
{
    if events.len() == 0 {
        Seq::empty()
    } else {
        let before = received_from(events.drop_last(), connection);
        match events.last() {
            BridgeEvent::Incoming { connection: from, message } if from == connection => before.push(
                message,
            ),
            BridgeEvent::Connected if events.len() >= 2 && events[events.len() - 2] == (
            BridgeEvent::<M>::Opened { connection }) => Seq::empty(),
            _ => before,
        }
    }
}

proof fn lemma_bridge_to_come_has_nothing<M>(events: Seq<BridgeEvent<M>>, bridge: nat)
    requires
        bridge >= bridge_run(no_bridges(), events).count,
    ensures
        delivered_to(events, bridge) == Seq::<M>::empty(),
    decreases events.len(),
{
    if events.len() > 0 {
        let init = events.drop_last();
        lemma_bridge_to_come_has_nothing(init, bridge);
        let at = bridge_run(no_bridges(), init);
        if let BridgeEvent::Incoming { connection, message } = events.last() {
            if at.table.contains_key(connection) {
                lemma_numbers_are_counted(init, connection);
            }
        }
    }
}

proof fn lemma_phase_tells_last<M>(events: Seq<BridgeEvent<M>>)
    requires
        in_turn(events),
    ensures
        bridge_run(no_bridges(), events).phase matches BridgePhase::Connecting { connection }
            ==> events.len() > 0 && events.last() == (BridgeEvent::<M>::Opened { connection }),
        events.len() > 0 ==> (events.last() matches BridgeEvent::Opened { connection }
            ==> bridge_run(no_bridges(), events).phase == (BridgePhase::Connecting { connection })),
{
}

/// A bridge gets the messages of the client that it serves: all that came under
/// the client's connection since the bridge was made, unchanged, in order, and
/// nothing else.
pub proof fn law_bridge_gets_its_clients_messages<M>(events: Seq<BridgeEvent<M>>, connection: u64)
    requires
        in_turn(events),
        bridge_run(no_bridges(), events).table.contains_key(connection),
    ensures
        delivered_to(
            events,
            bridge_run(no_bridges(), events).table[connection],
        ) == received_from(events, connection),
    decreases events.len(),
{
    if events.len() > 0 {
        let init = events.drop_last();
        let last = events.last();
        let at = bridge_run(no_bridges(), init);
        lemma_phase_tells_last(init);
        if last is Connected && events.len() >= 2 {
            assert(events[events.len() - 2] == init.last());
        }
        if at.phase == (BridgePhase::Connecting { connection }) && last is Connected {
            lemma_bridge_to_come_has_nothing(init, at.count);
        } else {
            law_bridge_gets_its_clients_messages(init, connection);
            if let BridgeEvent::Incoming { connection: from, message } = last {
                if from != connection && at.table.contains_key(from) {
                    law_every_client_has_its_own_bridge(init, from, connection);
                }
            }
        }
    }
}

/// A relay that listens passes over nothing that the transport can report: it
/// takes up every client that opens a connection, whatever bridges there are, and
/// has an answer to everything else.
pub proof fn law_listening_relay_answers<M>(state: BridgeState, event: BridgeEvent<M>)
    requires
        state.phase == BridgePhase::Listening,
    ensures
        event matches BridgeEvent::Opened { connection } ==> bridge_next(state, event) == (
            BridgeState {
                phase: BridgePhase::Connecting { connection },
                table: state.table,
                count: state.count,
            },
            BridgeActionView::<M>::Connect { connection },
        ),
        event is Opened || event is Incoming || event is Closed || event is Shutdown || event
            is TransportClosed ==> !(bridge_next(state, event).1 is Nothing),
{
}

/// Every client is served: once a connection was opened and a bridge made for it,
/// that bridge is the connection's, it is a new one, and the next message of the
/// client is handed to it.
pub proof fn law_opened_client_is_served<M>(
    table: Map<u64, nat>,
    count: nat,
    connection: u64,
    message: M,
)
    ensures
        ({
            let opened = bridge_next(
                BridgeState { phase: BridgePhase::Listening, table, count },
                BridgeEvent::<M>::Opened { connection },
            ).0;
            let served = bridge_next(opened, BridgeEvent::<M>::Connected).0;
            &&& served.phase == BridgePhase::Listening
            &&& served.table.contains_pair(connection, count)
            &&& served.count == count + 1
            &&& bridge_next(served, BridgeEvent::Incoming { connection, message }).1 == (
            BridgeActionView::Deliver { bridge: count, message })
        }),
{
}

/// A bridge is asked for exactly when a client opens a connection, and kept
/// exactly when the one that was asked for was made: under the next number, in
/// the place of the bridge that served the connection before, which is aborted.
pub proof fn law_bridges_are_made_for_clients<M>(
    state: BridgeState,
    event: BridgeEvent<M>,
    connection: u64,
    bridge: nat,
    abort: Option<nat>,
    disconnect: bool,
)
    ensures
        bridge_next(state, event).1 == (BridgeActionView::<M>::Connect { connection }) <==> (
        state.phase == BridgePhase::Listening && event == BridgeEvent::<M>::Opened { connection }),
        bridge_next(state, event).1 == (BridgeActionView::<M>::Keep { bridge, abort }) <==> {
            &&& event is Connected
            &&& bridge == state.count
            &&& state.phase matches BridgePhase::Connecting { connection: served }
            &&& match abort {
                Some(previous) => state.table.contains_pair(served, previous),
                None => !state.table.contains_key(served),
            }
        },
        bridge_next(state, event).1 == (BridgeActionView::<M>::Refuse { connection, disconnect })
            <==> (state.phase == (BridgePhase::Connecting { connection }) && event == (
        BridgeEvent::<M>::ConnectFailed { disconnectable: disconnect })),
{
}

/// A message is handed to a bridge exactly when it comes from the client that the
/// bridge serves.
pub proof fn law_messages_are_routed<M>(
    state: BridgeState,
    event: BridgeEvent<M>,
    bridge: nat,
    message: M,
)
    ensures
        bridge_next(state, event).1 == (BridgeActionView::Deliver { bridge, message }) <==> {
            &&& state.phase == BridgePhase::Listening
            &&& event matches BridgeEvent::Incoming { connection, message: sent }
            &&& sent == message
            &&& state.table.contains_pair(connection, bridge)
        },
{
}

/// A single bridge is aborted exactly when the client that it serves closes its
/// connection; all are, exactly when the relay shuts down; and the relay fails
/// exactly when the transport is gone.
pub proof fn law_bridges_end_for_a_reason<M>(
    state: BridgeState,
    event: BridgeEvent<M>,
    bridge: nat,
    abort: Map<u64, nat>,
)
    ensures
        bridge_next(state, event).1 == (BridgeActionView::<M>::Abort { bridge }) <==> {
            &&& state.phase == BridgePhase::Listening
            &&& event matches BridgeEvent::Closed { connection }
            &&& state.table.contains_pair(connection, bridge)
        },
        bridge_next(state, event).1 == (BridgeActionView::<M>::Stop { abort }) <==> (state.phase
            == BridgePhase::Listening && event == BridgeEvent::<M>::Shutdown && abort
            == state.table),
        bridge_next(state, event).1 is Fail <==> (state.phase == BridgePhase::Listening && event
            == BridgeEvent::<M>::TransportClosed),
{
}

/// The relay just goes on listening on a message or a close of a client without a
/// bridge, and once a delivery is over, however it went.
pub proof fn law_relay_listens_on<M>(state: BridgeState, event: BridgeEvent<M>)
    ensures
        bridge_next(state, event).1 is Listen <==> match (state.phase, event) {
            (BridgePhase::Listening, BridgeEvent::Incoming { connection, .. }) =>
                !state.table.contains_key(connection),
            (BridgePhase::Listening, BridgeEvent::Closed { connection }) =>
                !state.table.contains_key(connection),
            (BridgePhase::Delivering { .. }, BridgeEvent::Delivered) => true,
            (BridgePhase::Delivering { .. }, BridgeEvent::DeliveryFailed) => true,
            _ => false,
        },
{
}

/// What an action leaves behind.  A connection keeps its bridge unless it gets a
/// new one, is closed, its bridge takes no more messages, or the relay ends; no
/// other connection gets one; and only a bridge that is kept is counted.
pub proof fn law_bridges_are_accounted_for<M>(
    state: BridgeState,
    event: BridgeEvent<M>,
    connection: u64,
)
    ensures
        ({
            let (after, action) = bridge_next(state, event);
            let made = action is Keep && state.phase == (BridgePhase::Connecting { connection });
            let lost = {
                ||| action is Stop
                ||| action is Fail
                ||| action is Abort && event == (BridgeEvent::<M>::Closed { connection })
                ||| state.phase == (BridgePhase::Delivering { connection }) && event is DeliveryFailed
            };
            &&& after.count == state.count + if action is Keep {
                1nat
            } else {
                0
            }
            &&& after.table.contains_key(connection) <==> made || (state.table.contains_key(
                connection,
            ) && !lost)
            &&& made ==> after.table[connection] == state.count
            &&& after.table.contains_key(connection) && !made ==> after.table[connection]
                == state.table[connection]
        }),
{
}

/// What the relay is at after an action: it waits for the bridge that it asked
/// for or for the delivery that it ordered, has ended, or listens; and an event
/// that does not belong changes nothing at all.
pub proof fn law_relay_is_at_what_it_does<M>(state: BridgeState, event: BridgeEvent<M>)
    ensures
        ({
            let (after, action) = bridge_next(state, event);
            match action {
                BridgeActionView::Connect { connection } => after.phase == (
                BridgePhase::Connecting { connection }),
                BridgeActionView::Deliver { .. } => {
                    &&& event matches BridgeEvent::Incoming { connection, .. }
                    &&& after.phase == (BridgePhase::Delivering { connection })
                },
                BridgeActionView::Stop { .. } => after.phase == BridgePhase::Ended,
                BridgeActionView::Fail => after.phase == BridgePhase::Ended,
                BridgeActionView::Nothing => after == state,
                _ => after.phase == BridgePhase::Listening,
            }
        }),
{
}

/// The relay begins by listening, without a bridge.
pub proof fn law_relay_begins_without_bridges()
    ensures
        no_bridges().phase == BridgePhase::Listening,
        no_bridges().table == Map::<u64, nat>::empty(),
        no_bridges().count == 0,
{
}

/// The report of a connection that gets no bridge names the connection.
pub proof fn law_refusal_names_the_connection(connection: u64)
    ensures
        refusal_text(connection) == "Failed to open local bridge for remote connection "@ + decimal(
            connection as int,
        ) + ": "@,
{
}

/// An action is the one that is asked for, with nothing lost: the same kind, the
/// same connection, the same numbers, the same message.
pub proof fn law_actions_are_told_apart<M>(
    action: BridgeAction<M>,
    first: BridgeActionView<M>,
    second: BridgeActionView<M>,
)
    requires
        is_bridge_action(action, first),
        is_bridge_action(action, second),
    ensures
        first is Stop <==> second is Stop,
        !(first is Stop) ==> first == second,
        first matches BridgeActionView::Stop { abort } ==> (second matches BridgeActionView::Stop {
            abort: other,
        } ==> forall|connection: u64| #[trigger]
            abort.contains_key(connection) <==> other.contains_key(connection)),
{
    if let BridgeActionView::Stop { abort } = first {
        if let BridgeActionView::Stop { abort: other } = second {
            if let BridgeAction::Stop { abort: pairs } = action {
                assert forall|connection: u64| #[trigger]
                    abort.contains_key(connection) <==> other.contains_key(connection) by {
                    if abort.contains_key(connection) {
                        let i = choose|i: int|
                            0 <= i < pairs@.len() && pairs@[i] == (connection, abort[connection] as u64);
                        assert(other.contains_pair(pairs@[i].0, pairs@[i].1 as nat));
                    }
                    if other.contains_key(connection) {
                        let i = choose|i: int|
                            0 <= i < pairs@.len() && pairs@[i] == (connection, other[connection] as u64);
                        assert(abort.contains_pair(pairs@[i].0, pairs@[i].1 as nat));
                    }
                }
            }
        }
    }
}

/// A list of the bridges has every connection that is served, once, with the
/// bridge that serves it, and nothing else.
pub proof fn law_every_bridge_is_listed_once(
    pairs: Seq<(u64, u64)>,
    table: Map<u64, nat>,
    connection: u64,
    i: int,
    j: int,
)
    requires
        lists(pairs, table),
    ensures
        0 <= i < pairs.len() ==> table.contains_key(pairs[i].0) && table[pairs[i].0] == pairs[i].1,
        0 <= i < j < pairs.len() ==> pairs[i].0 != pairs[j].0,
        table.contains_key(connection) ==> exists|k: int|
            0 <= k < pairs.len() && (#[trigger] pairs[k]).0 == connection,
{
    if 0 <= i < pairs.len() {
        assert(table.contains_pair(pairs[i].0, pairs[i].1 as nat));
    }
    if 0 <= i < j < pairs.len() {
        assert(table.contains_pair(pairs[j].0, pairs[j].1 as nat));
        if pairs[i].0 == pairs[j].0 {
            assert(pairs[i] == pairs[j]);
        }
    }
    if table.contains_key(connection) {
        let k = choose|k: int|
            0 <= k < pairs.len() && pairs[k] == (connection, table[connection] as u64);
        assert(pairs[k].0 == connection);
    }
}

} // verus!
