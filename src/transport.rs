//! Decisions of the transport task: connection and flow-control state, and how a readable
//! run of bytes is cut into packets.
use vstd::prelude::*;

verus! {

/// Lengths of the packets that carry a readable run of `len` bytes with packets of at most
/// `size` bytes: full packets first, then the short remainder, or an empty packet where the
/// run ends on a packet boundary, so that the host sees the end of the transfer.
pub open spec fn packet_plan(len: usize, size: usize) -> Seq<usize>
    recommends
        size > 0,
{
    Seq::new((len / size) as nat, |_i: int| size) + if len % size != 0 {
        seq![(len % size) as usize]
    } else if len > 0 {
        seq![0usize]
    } else {
        Seq::empty()
    }
}

/// Sum of a series of packet lengths.
pub open spec fn total(s: Seq<usize>) -> int
    decreases s.len(),
{
    if s.len() == 0 {
        0
    } else {
        total(s.drop_last()) + s.last()
    }
}

/// Cuts a readable run of `len` bytes into packet lengths for packets of at most `size`
/// bytes, ending with an empty packet where the last one would be full.
pub fn packet_lengths(len: usize, size: usize) -> (r: Vec<usize>)
    requires
        size > 0,
    ensures
        r@ == packet_plan(len, size),
{
    let full = len / size;
    let rest = len % size;
    let mut r: Vec<usize> = Vec::new();
    let mut i: usize = 0;
    while i < full
        invariant
            i <= full,
            r@ =~= Seq::new(i as nat, |_j: int| size),
        decreases full - i,
    {
        r.push(size);
        i = i + 1;
    }
    if rest != 0 {
        r.push(rest);
    } else if len > 0 {
        r.push(0);
    }
    assert(r@ =~= packet_plan(len, size));
    r
}

proof fn lemma_total_append(s: Seq<usize>, t: Seq<usize>)
    ensures
        total(s + t) == total(s) + total(t),
    decreases t.len(),
{
    if t.len() > 0 {
        assert((s + t).drop_last() =~= s + t.drop_last());
        lemma_total_append(s, t.drop_last());
    } else {
        assert(s + t =~= s);
    }
}

proof fn lemma_total_constant(n: nat, size: usize)
    ensures
        total(Seq::new(n, |_i: int| size)) == n * size,
    decreases n,
{
    let s = Seq::new(n, |_i: int| size);
    if n > 0 {
        let init = Seq::new((n - 1) as nat, |_i: int| size);
        assert(s.drop_last() =~= init);
        lemma_total_constant((n - 1) as nat, size);
        assert(total(s) == total(init) + size);
        assert((n - 1) * size + size == n * size) by (nonlinear_arith)
            requires
                n > 0,
        ;
    } else {
        assert(total(s) == 0);
    }
}

/// Streaming a run of `len` bytes with packets of `size` bytes sends ⌈len / size⌉ data
/// packets, none larger than `size`, carrying `len` bytes in all, and one trailing empty
/// packet exactly when `len` is a positive multiple of `size`.
pub proof fn lemma_packet_count(len: usize, size: usize)
    requires
        size > 0,
    ensures
        packet_plan(len, size).len() == (len + size - 1) / (size as int) + if len > 0 && len
            % size == 0 {
            1int
        } else {
            0int
        },
        forall|i: int|
            0 <= i < packet_plan(len, size).len() ==> packet_plan(len, size)[i] <= size,
        total(packet_plan(len, size)) == len,
        (packet_plan(len, size).len() > 0 && packet_plan(len, size).last() == 0) <==> (len > 0
            && len % size == 0),
{
    let q = len / size;
    let m = len % size;
    assert(len == q * size + m && 0 <= m < size) by (nonlinear_arith)
        requires
            q == len / size,
            m == len % size,
            size > 0,
    ;
    if m != 0 {
        assert((len + size - 1) / (size as int) == q + 1) by (nonlinear_arith)
            requires
                len == q * size + m,
                0 < m < size,
        ;
    } else {
        assert((len + size - 1) / (size as int) == q) by (nonlinear_arith)
            requires
                len == q * size,
                size > 0,
        ;
    }
    let full = Seq::new(q as nat, |_i: int| size);
    let tail: Seq<usize> = if m != 0 {
        seq![m as usize]
    } else if len > 0 {
        seq![0usize]
    } else {
        Seq::empty()
    };
    assert(packet_plan(len, size) == full + tail);
    lemma_total_append(full, tail);
    lemma_total_constant(q as nat, size);
    assert(total(tail) == m) by {
        if tail.len() == 1 {
            assert(tail.drop_last() =~= Seq::<usize>::empty());
            assert(total(tail.drop_last()) == 0);
            assert(tail.last() == m);
        }
    }
}

/// Where the transport task stands.
#[derive(Clone, Copy, Debug, PartialEq, Eq, Structural)]
pub enum ConnectionState {
    /// Waiting for a host to connect.
    Disconnected,
    /// Connected; waiting for the host to assert both flow-control lines.
    ConnectedAwaitingFlowControl,
    /// Streaming; waiting for bytes in the ring buffer.
    Streaming,
    /// Streaming; a readable view of this many bytes is being sent.
    Sending(usize),
}

/// What the transport reports to the task.
#[derive(Clone, Copy, Debug, PartialEq, Eq, Structural)]
pub enum Event {
    /// The device is connected to a host.
    Connected,
    /// The current levels of the host's flow-control lines.
    ControlLines { dtr: bool, rts: bool },
    /// The ring buffer offers a contiguous view of this many bytes.
    Readable(usize),
    /// Every packet of the current view was written.
    Sent,
    /// A packet write failed because the endpoint is disabled.
    EndpointDisabled,
}

/// What the task does next.
#[derive(Clone, Debug, PartialEq, Eq)]
pub enum Action {
    /// Wait until a host connects.
    AwaitConnection,
    /// Read the flow-control lines now.
    ReadControlLines,
    /// Wait for a change of the flow-control lines, then read them.
    AwaitControlChange,
    /// Wait until the ring buffer holds bytes.
    AwaitReadable,
    /// Write the current view as packets of these lengths, in order.
    Send(Vec<usize>),
    /// Mark this many bytes of the view as consumed, then wait for more.
    Commit(usize),
    /// Drop this many unsent bytes of the view, then wait for a connection.
    Discard(usize),
}

/// The state that follows `s` on event `e`.
pub open spec fn next_state(s: ConnectionState, e: Event) -> ConnectionState {
    match e {
        Event::EndpointDisabled => ConnectionState::Disconnected,
        Event::Connected => match s {
            ConnectionState::Disconnected => ConnectionState::ConnectedAwaitingFlowControl,
            _ => s,
        },
        Event::ControlLines { dtr, rts } => match s {
            ConnectionState::ConnectedAwaitingFlowControl => if dtr && rts {
                ConnectionState::Streaming
            } else {
                s
            },
            _ => s,
        },
        Event::Readable(n) => match s {
            ConnectionState::Streaming => if n > 0 {
                ConnectionState::Sending(n)
            } else {
                s
            },
            _ => s,
        },
        Event::Sent => match s {
            ConnectionState::Sending(_) => ConnectionState::Streaming,
            _ => s,
        },
    }
}

/// The instruction that stands while the task is in state `s`.
pub open spec fn pending(a: Action, s: ConnectionState, size: usize) -> bool {
    match s {
        ConnectionState::Disconnected => a == Action::AwaitConnection,
        ConnectionState::ConnectedAwaitingFlowControl => a == Action::ReadControlLines,
        ConnectionState::Streaming => a == Action::AwaitReadable,
        ConnectionState::Sending(n) => a is Send && a->Send_0@ == packet_plan(n, size),
    }
}

/// The action that the task takes in state `s` on event `e`: an event that the state does
/// not expect leaves the state's instruction standing.
pub open spec fn action_for(a: Action, s: ConnectionState, e: Event, size: usize) -> bool {
    match e {
        Event::EndpointDisabled => match s {
            ConnectionState::Sending(n) => a == Action::Discard(n),
            _ => a == Action::AwaitConnection,
        },
        Event::Connected => match s {
            ConnectionState::Disconnected => a == Action::ReadControlLines,
            _ => pending(a, s, size),
        },
        Event::ControlLines { dtr, rts } => match s {
            ConnectionState::ConnectedAwaitingFlowControl => if dtr && rts {
                a == Action::AwaitReadable
            } else {
                a == Action::AwaitControlChange
            },
            _ => pending(a, s, size),
        },
        Event::Readable(n) => match s {
            ConnectionState::Streaming => if n > 0 {
                a is Send && a->Send_0@ == packet_plan(n, size)
            } else {
                a == Action::AwaitReadable
            },
            _ => pending(a, s, size),
        },
        Event::Sent => match s {
            ConnectionState::Sending(n) => a == Action::Commit(n),
            _ => pending(a, s, size),
        },
    }
}

/// The transport task's connection, flow-control and streaming state.
pub struct Link {
    state: ConnectionState,
    packet_size: usize,
}

impl Link {
    /// The current state.
    pub closed spec fn phase(&self) -> ConnectionState {
        self.state
    }

    /// The largest packet that the endpoint accepts.
    pub closed spec fn max_packet(&self) -> usize {
        self.packet_size
    }

    /// A link that starts disconnected and sends packets of at most `packet_size` bytes.
    pub fn new(packet_size: usize) -> (r: Self)
        requires
            packet_size > 0,
        ensures
            r.phase() == ConnectionState::Disconnected,
            r.max_packet() == packet_size,
    {
        Link { state: ConnectionState::Disconnected, packet_size }
    }

    /// The current state.
    pub fn state(&self) -> (r: ConnectionState)
        ensures
            r == self.phase(),
    {
        self.state
    }

    /// The largest packet that the endpoint accepts.
    pub fn packet_size(&self) -> (r: usize)
        ensures
            r == self.max_packet(),
    {
        self.packet_size
    }

    /// Takes one event and says what to do next.
    pub fn step(&mut self, e: Event) -> (a: Action)
        requires
            old(self).max_packet() > 0,
        ensures
            final(self).max_packet() == old(self).max_packet(),
            final(self).phase() == next_state(old(self).phase(), e),
            action_for(a, old(self).phase(), e, old(self).max_packet()),
    {
        let s = self.state;
        let size = self.packet_size;
        let (next, a) = match e {
            Event::EndpointDisabled => match s {
                ConnectionState::Sending(n) => (ConnectionState::Disconnected, Action::Discard(n)),
                _ => (ConnectionState::Disconnected, Action::AwaitConnection),
            },
            Event::Connected => match s {
                ConnectionState::Disconnected => (
                    ConnectionState::ConnectedAwaitingFlowControl,
                    Action::ReadControlLines,
                ),
                _ => (s, pending_action(s, size)),
            },
            Event::ControlLines { dtr, rts } => match s {
                ConnectionState::ConnectedAwaitingFlowControl => if dtr && rts {
                    (ConnectionState::Streaming, Action::AwaitReadable)
                } else {
                    (s, Action::AwaitControlChange)
                },
                _ => (s, pending_action(s, size)),
            },
            Event::Readable(n) => match s {
                ConnectionState::Streaming => if n > 0 {
                    (ConnectionState::Sending(n), Action::Send(packet_lengths(n, size)))
                } else {
                    (s, Action::AwaitReadable)
                },
                _ => (s, pending_action(s, size)),
            },
            Event::Sent => match s {
                ConnectionState::Sending(n) => (ConnectionState::Streaming, Action::Commit(n)),
                _ => (s, pending_action(s, size)),
            },
        };
        self.state = next;
        a
    }
}

/// The instruction that stands in state `s`.
fn pending_action(s: ConnectionState, size: usize) -> (a: Action)
    requires
        size > 0,
    ensures
        pending(a, s, size),
{
    match s {
        ConnectionState::Disconnected => Action::AwaitConnection,
        ConnectionState::ConnectedAwaitingFlowControl => Action::ReadControlLines,
        ConnectionState::Streaming => Action::AwaitReadable,
        ConnectionState::Sending(n) => Action::Send(packet_lengths(n, size)),
    }
}

/// Packets go out only once streaming: whatever the event, a `Send` comes only from a state
/// that has seen both flow-control lines asserted, and every packet it asks for fits the
/// endpoint.
pub proof fn lemma_send_only_while_streaming(a: Action, s: ConnectionState, e: Event, size: usize)
    requires
        size > 0,
        action_for(a, s, e, size),
        a is Send,
    ensures
        s == ConnectionState::Streaming || s is Sending,
        next_state(s, e) is Sending,
        forall|i: int| 0 <= i < a->Send_0@.len() ==> a->Send_0@[i] <= size,
{
    match s {
        ConnectionState::Sending(n) => lemma_packet_count(n, size),
        ConnectionState::Streaming => match e {
            Event::Readable(n) => lemma_packet_count(n, size),
            _ => {},
        },
        _ => {},
    }
}

} // verus!
