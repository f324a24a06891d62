//! All the connections of a server at once: a model in which to state that
//! every handler runs for itself, however their work is interleaved.
//!
//! A handler owns its state and takes its signals one at a time, so that
//! whatever several handlers do at once amounts to their steps in some
//! order. The model is that order, a trace of signals with the connection
//! that each is addressed to, and a record of what was published. Its steps
//! are those of [`Connection::react`](crate::connection::Connection::react).

use crate::command::CommandView;
use crate::connection::{is_failure, reaction, ActionView, ConnectionState, SignalView};
use vstd::prelude::*;

verus! {

/// The connections of a server at one moment.
pub struct System {
    /// The state of each connection, by its number.
    pub connections: Map<nat, ConnectionState>,
    /// Every command published so far, oldest first, each with the number
    /// of the connection that it came from.
    pub published: Seq<(nat, CommandView)>,
}

/// The system after connection `id` has taken `signal`: the transition of
/// that handler, and its command at the end of the record where it
/// publishes one. Nothing changes where there is no such connection.
pub open spec fn deliver(system: System, id: nat, signal: SignalView) -> System {
    if system.connections.contains_key(id) {
        let (state, action) = reaction(system.connections[id], signal);
        System {
            connections: system.connections.insert(id, state),
            published: match action {
                ActionView::Publish(command) => system.published.push((id, command)),
                _ => system.published,
            },
        }
    } else {
        system
    }
}

/// The system after the signals of `trace` were taken in turn, each by the
/// connection that it is addressed to.
pub open spec fn run(system: System, trace: Seq<(nat, SignalView)>) -> System
    decreases trace.len(),
{
    if trace.len() == 0 {
        system
    } else {
        deliver(run(system, trace.drop_last()), trace.last().0, trace.last().1)
    }
}

/// Whether a record of the publication log came from connection `id`.
pub open spec fn came_from(id: nat) -> spec_fn((nat, CommandView)) -> bool {
    |record: (nat, CommandView)| record.0 == id
}

/// Whether a signal of a trace is addressed to connection `id`.
pub open spec fn addressed_to(id: nat) -> spec_fn((nat, SignalView)) -> bool {
    |entry: (nat, SignalView)| entry.0 == id
}

/// The records of connection `id` in a publication log, oldest first.
pub open spec fn published_by(log: Seq<(nat, CommandView)>, id: nat) -> Seq<(nat, CommandView)> {
    log.filter(came_from(id))
}

/// The part of a trace that is addressed to connection `id`, in order.
pub open spec fn trace_of(trace: Seq<(nat, SignalView)>, id: nat) -> Seq<(nat, SignalView)> {
    trace.filter(addressed_to(id))
}

/// The commands that a trace holds for connection `id`, in order, each as
/// the record that its publication leaves.
pub open spec fn commands_to(trace: Seq<(nat, SignalView)>, id: nat) -> Seq<(nat, CommandView)>
    decreases trace.len(),
{
    if trace.len() == 0 {
        Seq::empty()
    } else {
        let earlier = commands_to(trace.drop_last(), id);
        let (target, signal) = trace.last();
        if target == id && signal is Command {
            earlier.push((id, signal->Command_0))
        } else {
            earlier
        }
    }
}

/// All that a system holds of connection `id`: its state, where there is
/// such a connection, and its records in the publication log.
pub open spec fn part_of(system: System, id: nat) -> (
    Option<ConnectionState>,
    Seq<(nat, CommandView)>,
) {
    (
        if system.connections.contains_key(id) {
            Some(system.connections[id])
        } else {
            None
        },
        published_by(system.published, id),
    )
}

/// Taking a signal changes no connection but the one that takes it.
/// Whatever connection `a` takes, be it the failure or the end that closes
/// it, another connection `b` keeps its state and its records, and does on
/// whatever it takes next what it would have done had `a` taken nothing.
pub proof fn lemma_connections_are_independent(system: System, a: nat, b: nat, signal: SignalView)
    requires
        a != b,
    ensures
        part_of(deliver(system, a, signal), b) == part_of(system, b),
        forall|next: SignalView|
            part_of(#[trigger] deliver(deliver(system, a, signal), b, next), b) == part_of(
                deliver(system, b, next),
                b,
            ),
{
    lemma_publication_is_local(system, a, b, signal);
    assert forall|next: SignalView|
        part_of(#[trigger] deliver(deliver(system, a, signal), b, next), b) == part_of(
            deliver(system, b, next),
            b,
        ) by {
        lemma_step_is_by_part(deliver(system, a, signal), system, b, next);
    }
}

/// The records of connection `b` are untouched by a signal to another.
proof fn lemma_publication_is_local(system: System, a: nat, b: nat, signal: SignalView)
    requires
        a != b,
    ensures
        published_by(deliver(system, a, signal).published, b) == published_by(system.published, b),
{
    let moved = deliver(system, a, signal);
    if moved.published != system.published {
        let command = reaction(system.connections[a], signal).1->Publish_0;
        system.published.lemma_filter_push((a, command), came_from(b));
    }
}

/// What one signal adds to the records of the connection that takes it:
/// its command where the handler publishes one, and nothing else.
proof fn lemma_record_of_step(system: System, id: nat, signal: SignalView)
    ensures
        published_by(deliver(system, id, signal).published, id) == if system.connections.contains_key(
            id,
        ) {
            match reaction(system.connections[id], signal).1 {
                ActionView::Publish(command) => published_by(system.published, id).push(
                    (id, command),
                ),
                _ => published_by(system.published, id),
            }
        } else {
            published_by(system.published, id)
        },
{
    if system.connections.contains_key(id) {
        match reaction(system.connections[id], signal).1 {
            ActionView::Publish(command) => {
                system.published.lemma_filter_push((id, command), came_from(id));
            },
            _ => {},
        }
    }
}

/// What a connection has come to after a signal is settled by what it had
/// come to before: two systems that agree on a connection still agree on
/// it after it has taken the same signal in both.
proof fn lemma_step_is_by_part(first: System, second: System, id: nat, signal: SignalView)
    requires
        part_of(first, id) == part_of(second, id),
    ensures
        part_of(deliver(first, id, signal), id) == part_of(deliver(second, id, signal), id),
{
    lemma_record_of_step(first, id, signal);
    lemma_record_of_step(second, id, signal);
}

/// However the signals to several connections are interleaved, each
/// connection ends in the state, and with the records, that its own signals
/// alone would have given it, taken in the order in which they came.
pub proof fn lemma_interleaving_is_immaterial(
    system: System,
    trace: Seq<(nat, SignalView)>,
    id: nat,
)
    ensures
        part_of(run(system, trace), id) == part_of(run(system, trace_of(trace, id)), id),
    decreases trace.len(),
{
    reveal(Seq::filter);
    if trace.len() > 0 {
        let earlier = trace.drop_last();
        let (target, signal) = trace.last();
        assert(trace == earlier.push(trace.last()));
        lemma_interleaving_is_immaterial(system, earlier, id);
        earlier.lemma_filter_push(trace.last(), addressed_to(id));
        if target == id {
            let own = trace_of(earlier, id);
            assert(trace_of(trace, id) == own.push(trace.last()));
            assert(own.push(trace.last()).drop_last() == own);
            lemma_step_is_by_part(run(system, earlier), run(system, own), id, signal);
        } else {
            lemma_connections_are_independent(run(system, earlier), target, id, signal);
        }
    }
}

/// An open connection that is not lost publishes every command that it is
/// sent, once, and in the order in which they came, whatever else is going
/// on: nothing is lost, nothing comes twice, and it is open afterwards.
pub proof fn lemma_every_command_is_published_in_order(
    system: System,
    trace: Seq<(nat, SignalView)>,
    id: nat,
)
    requires
        system.connections.contains_key(id),
        system.connections[id] is Open,
        forall|i: int|
            0 <= i < trace.len() && (#[trigger] trace[i]).0 == id ==> !is_failure(trace[i].1),
    ensures
        part_of(run(system, trace), id) == (
            Some(ConnectionState::Open),
            published_by(system.published, id) + commands_to(trace, id),
        ),
    decreases trace.len(),
{
    if trace.len() > 0 {
        let earlier = trace.drop_last();
        let (target, signal) = trace.last();
        assert forall|i: int| 0 <= i < earlier.len() && (#[trigger] earlier[i]).0 == id implies !is_failure(
            earlier[i].1,
        ) by {
            assert(earlier[i] == trace[i]);
        }
        lemma_every_command_is_published_in_order(system, earlier, id);
        let before = run(system, earlier);
        if target == id {
            assert(trace[trace.len() - 1] == trace.last());
            lemma_record_of_step(before, id, signal);
        } else {
            lemma_connections_are_independent(before, target, id, signal);
        }
    } else {
        assert(published_by(system.published, id) + commands_to(trace, id) == published_by(
            system.published,
            id,
        ));
    }
}

/// A connection that is closed stays closed and publishes nothing more,
/// whatever is still addressed to it or to any other.
pub proof fn lemma_closed_connection_is_over(
    system: System,
    trace: Seq<(nat, SignalView)>,
    id: nat,
)
    requires
        system.connections.contains_key(id),
        system.connections[id] is Closed,
    ensures
        part_of(run(system, trace), id) == part_of(system, id),
    decreases trace.len(),
{
    if trace.len() > 0 {
        let earlier = trace.drop_last();
        let (target, signal) = trace.last();
        lemma_closed_connection_is_over(system, earlier, id);
        if target == id {
            lemma_record_of_step(run(system, earlier), id, signal);
        } else {
            lemma_connections_are_independent(run(system, earlier), target, id, signal);
        }
    }
}

/// Two clients that are connected at once and send one command each have
/// both commands published, each exactly once and in the order in which
/// the handlers took them, whichever came first; both connections stay
/// open. (A message with a valid payload is what gives a handler the
/// signal `Command`: see `signal_of`.)
pub proof fn lemma_two_clients_are_both_served(
    system: System,
    a: nat,
    b: nat,
    from_a: CommandView,
    from_b: CommandView,
)
    requires
        a != b,
        system.connections.contains_key(a),
        system.connections.contains_key(b),
        system.connections[a] is Open,
        system.connections[b] is Open,
    ensures
        ({
            let a_first = deliver(
                deliver(system, a, SignalView::Command(from_a)),
                b,
                SignalView::Command(from_b),
            );
            let b_first = deliver(
                deliver(system, b, SignalView::Command(from_b)),
                a,
                SignalView::Command(from_a),
            );
            &&& a_first.published == system.published.push((a, from_a)).push((b, from_b))
            &&& b_first.published == system.published.push((b, from_b)).push((a, from_a))
            &&& a_first.published.to_multiset() == b_first.published.to_multiset()
            &&& a_first.connections == system.connections
            &&& b_first.connections == system.connections
        }),
{
    let a_first = deliver(
        deliver(system, a, SignalView::Command(from_a)),
        b,
        SignalView::Command(from_b),
    );
    let b_first = deliver(
        deliver(system, b, SignalView::Command(from_b)),
        a,
        SignalView::Command(from_a),
    );
    assert(a_first.connections =~= system.connections);
    assert(b_first.connections =~= system.connections);
    let log = system.published;
    vstd::seq_lib::to_multiset_build(log, (a, from_a));
    vstd::seq_lib::to_multiset_build(log.push((a, from_a)), (b, from_b));
    vstd::seq_lib::to_multiset_build(log, (b, from_b));
    vstd::seq_lib::to_multiset_build(log.push((b, from_b)), (a, from_a));
    assert(a_first.published.to_multiset() =~= b_first.published.to_multiset());
}

} // verus!
