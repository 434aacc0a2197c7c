use vstd::prelude::*;

use crate::frame::{is_application, Frame};

verus! {

/// Something that became ready for the task that owns the connection.
#[derive(Debug, Clone, PartialEq, Eq)]
pub enum PumpEvent {
    /// A caller queued a frame for transmission.
    Outbound(Frame),
    /// Every sender of the outbound queue is gone.
    OutboundClosed,
    /// A frame arrived from the peer.
    Inbound(Frame),
    /// The peer sent a frame of a kind this library does not model.
    InboundUnknown,
    /// Reading from the connection failed without ending it.
    ReadFailed,
    /// The peer closed the transport.
    InboundEnded,
    /// The cancellation signal was observed.
    Cancelled,
}

/// What the owning task reports to its observability sink.
#[derive(Debug, Clone, PartialEq, Eq)]
pub enum Notice {
    UnexpectedFrame,
    ReadError,
}

/// Work that the owning task performs after an event.
#[derive(Debug, Clone, PartialEq, Eq)]
pub enum PumpCommand {
    /// Write the frame to the connection; a failure is reported, not retried.
    Transmit(Frame),
    /// Hand the frame to the inbound queue.
    Deliver(Frame),
    /// Report to the observability sink; the loop goes on.
    Report(Notice),
    /// Shut down the outbound half of the connection, ignoring errors.
    CloseTransport,
    /// Drop the producer of the inbound queue: receivers see end of stream.
    EndInbound,
}

/// The decision state of the task that owns one connection.
pub struct Pump {
    open: bool,
}

/// Whether the event ends the connection.
pub open spec fn ends_connection(e: PumpEvent) -> bool {
    match e {
        PumpEvent::OutboundClosed => true,
        PumpEvent::Inbound(f) => f is Close,
        PumpEvent::InboundEnded => true,
        PumpEvent::Cancelled => true,
        _ => false,
    }
}

/// The commands of the single teardown: a close frame, then shutdown of the
/// transport, then end of the inbound stream.
pub open spec fn teardown() -> Seq<PumpCommand> {
    seq![
        PumpCommand::Transmit(Frame::Close(None)),
        PumpCommand::CloseTransport,
        PumpCommand::EndInbound,
    ]
}

/// One event: whether the connection is still open afterwards, and the
/// commands to perform. A closed pump does nothing.
pub open spec fn step(open: bool, e: PumpEvent) -> (bool, Seq<PumpCommand>) {
    if !open {
        (false, seq![])
    } else if ends_connection(e) {
        (false, teardown())
    } else {
        match e {
            PumpEvent::Outbound(f) => (true, seq![PumpCommand::Transmit(f)]),
            PumpEvent::Inbound(f) => match f {
                Frame::Ping(p) => (true, seq![PumpCommand::Transmit(Frame::Pong(p))]),
                Frame::Pong(_) => (true, seq![PumpCommand::Report(Notice::UnexpectedFrame)]),
                _ => (true, seq![PumpCommand::Deliver(f)]),
            },
            PumpEvent::InboundUnknown => (true, seq![PumpCommand::Report(Notice::UnexpectedFrame)]),
            _ => (true, seq![PumpCommand::Report(Notice::ReadError)]),
        }
    }
}

/// A sequence of events, handled one at a time from the given state.
pub open spec fn run(open: bool, es: Seq<PumpEvent>) -> (bool, Seq<PumpCommand>)
    decreases es.len(),
{
    if es.len() == 0 {
        (open, seq![])
    } else {
        let (o1, c1) = step(open, es[0]);
        let (o2, c2) = run(o1, es.drop_first());
        (o2, c1 + c2)
    }
}

/// The frames written to the connection by a sequence of commands, in order.
pub open spec fn transmitted(cs: Seq<PumpCommand>) -> Seq<Frame>
    decreases cs.len(),
{
    if cs.len() == 0 {
        seq![]
    } else {
        let rest = transmitted(cs.drop_first());
        match cs[0] {
            PumpCommand::Transmit(f) => seq![f] + rest,
            _ => rest,
        }
    }
}

/// The frames that an open connection owes the peer for a sequence of events:
/// each queued frame, and a pong for each ping.
pub open spec fn owed_to_peer(es: Seq<PumpEvent>) -> Seq<Frame>
    decreases es.len(),
{
    if es.len() == 0 {
        seq![]
    } else {
        let rest = owed_to_peer(es.drop_first());
        match es[0] {
            PumpEvent::Outbound(f) => seq![f] + rest,
            PumpEvent::Inbound(Frame::Ping(p)) => seq![Frame::Pong(p)] + rest,
            _ => rest,
        }
    }
}

/// Every frame delivered by a sequence of commands is an application frame.
pub open spec fn delivers_application_only(cs: Seq<PumpCommand>) -> bool {
    forall|i: int| 0 <= i < cs.len() && (#[trigger] cs[i]) is Deliver ==> is_application(
        cs[i]->Deliver_0,
    )
}

/// A closed connection stays closed and does nothing more, whatever happens:
/// once the inbound stream has ended, no frame is delivered or written again.
pub proof fn law_closed_is_terminal(es: Seq<PumpEvent>)
    ensures
        run(false, es) == (false, Seq::<PumpCommand>::empty()),
    decreases es.len(),
{
    if es.len() > 0 {
        law_closed_is_terminal(es.drop_first());
        assert(Seq::<PumpCommand>::empty() + Seq::<PumpCommand>::empty() =~= Seq::<
            PumpCommand,
        >::empty());
    }
}

/// Observing cancellation any positive number of times has the same effect as
/// observing it once.
pub proof fn law_cancel_idempotent(n: nat)
    requires
        n >= 1,
    ensures
        run(true, Seq::new(n, |i: int| PumpEvent::Cancelled)) == run(
            true,
            seq![PumpEvent::Cancelled],
        ),
{
    let es = Seq::new(n, |i: int| PumpEvent::Cancelled);
    let once = seq![PumpEvent::Cancelled];
    law_closed_is_terminal(es.drop_first());
    law_closed_is_terminal(once.drop_first());
    assert(teardown() + Seq::<PumpCommand>::empty() =~= teardown());
}

/// Splitting a command sequence splits the frames it writes.
pub proof fn lemma_transmitted_concat(a: Seq<PumpCommand>, b: Seq<PumpCommand>)
    ensures
        transmitted(a + b) == transmitted(a) + transmitted(b),
    decreases a.len(),
{
    if a.len() == 0 {
        assert(a + b =~= b);
        assert(Seq::<Frame>::empty() + transmitted(b) =~= transmitted(b));
    } else {
        assert((a + b).drop_first() =~= a.drop_first() + b);
        lemma_transmitted_concat(a.drop_first(), b);
        assert((a + b)[0] == a[0]);
        match a[0] {
            PumpCommand::Transmit(f) => {
                assert(seq![f] + (transmitted(a.drop_first()) + transmitted(b)) =~= (seq![f]
                    + transmitted(a.drop_first())) + transmitted(b));
            },
            _ => {},
        }
    }
}

/// While no event ends the connection, the frames written to it are exactly
/// the frames callers queued and a pong for each ping, in the order in which
/// their events came.
pub proof fn law_transmit_order(es: Seq<PumpEvent>)
    requires
        forall|i: int| 0 <= i < es.len() ==> !ends_connection(#[trigger] es[i]),
    ensures
        run(true, es).0,
        transmitted(run(true, es).1) == owed_to_peer(es),
    decreases es.len(),
{
    if es.len() > 0 {
        let rest = es.drop_first();
        assert forall|i: int| 0 <= i < rest.len() implies !ends_connection(#[trigger] rest[i]) by {
            assert(rest[i] == es[i + 1]);
        }
        law_transmit_order(rest);
        assert(!ends_connection(es[0]));
        let c1 = step(true, es[0]).1;
        let c2 = run(true, rest).1;
        lemma_transmitted_concat(c1, c2);
        assert(transmitted(seq![]) == Seq::<Frame>::empty());
        match es[0] {
            PumpEvent::Outbound(f) => {
                assert(c1.drop_first() =~= Seq::<PumpCommand>::empty());
                assert(transmitted(c1) =~= seq![f]);
            },
            PumpEvent::Inbound(f) => {
                assert(c1.drop_first() =~= Seq::<PumpCommand>::empty());
                match f {
                    Frame::Ping(p) => {
                        assert(transmitted(c1) =~= seq![Frame::Pong(p)]);
                    },
                    _ => {
                        assert(transmitted(c1) =~= Seq::<Frame>::empty());
                        assert(Seq::<Frame>::empty() + transmitted(c2) =~= transmitted(c2));
                    },
                }
            },
            _ => {
                assert(c1.drop_first() =~= Seq::<PumpCommand>::empty());
                assert(transmitted(c1) =~= Seq::<Frame>::empty());
                assert(Seq::<Frame>::empty() + transmitted(c2) =~= transmitted(c2));
            },
        }
    }
}

/// A ping from the peer is answered with a pong carrying the same payload,
/// and is not delivered to callers.
pub proof fn law_ping_answered(payload: Vec<u8>)
    ensures
        step(true, PumpEvent::Inbound(Frame::Ping(payload))) == (
            true,
            seq![PumpCommand::Transmit(Frame::Pong(payload))],
        ),
{
}

/// Only text and binary frames ever reach the inbound queue: pings, pongs
/// and close frames are never delivered to callers.
pub proof fn law_application_frames_only(open: bool, es: Seq<PumpEvent>)
    ensures
        delivers_application_only(run(open, es).1),
    decreases es.len(),
{
    if es.len() > 0 {
        let (o1, c1) = step(open, es[0]);
        law_application_frames_only(o1, es.drop_first());
        let c2 = run(o1, es.drop_first()).1;
        assert(delivers_application_only(c1));
        assert forall|i: int|
            0 <= i < (c1 + c2).len() && (#[trigger] (c1 + c2)[i]) is Deliver implies is_application(
            (c1 + c2)[i]->Deliver_0,
        ) by {
            if i >= c1.len() {
                assert((c1 + c2)[i] == c2[i - c1.len()]);
            }
        }
    }
}

/// How many times a sequence of commands ends the inbound stream.
pub open spec fn inbound_endings(cs: Seq<PumpCommand>) -> nat
    decreases cs.len(),
{
    if cs.len() == 0 {
        0
    } else {
        (if cs[0] is EndInbound {
            1nat
        } else {
            0nat
        }) + inbound_endings(cs.drop_first())
    }
}

/// Splitting a command sequence splits its count of stream endings.
pub proof fn lemma_inbound_endings_concat(a: Seq<PumpCommand>, b: Seq<PumpCommand>)
    ensures
        inbound_endings(a + b) == inbound_endings(a) + inbound_endings(b),
    decreases a.len(),
{
    if a.len() == 0 {
        assert(a + b =~= b);
    } else {
        assert((a + b).drop_first() =~= a.drop_first() + b);
        assert((a + b)[0] == a[0]);
        lemma_inbound_endings_concat(a.drop_first(), b);
    }
}

/// The connection is released exactly once: whatever happens, the inbound
/// stream is ended once if the connection went from open to closed, and
/// never otherwise.
pub proof fn law_teardown_once(open: bool, es: Seq<PumpEvent>)
    ensures
        inbound_endings(run(open, es).1) == (if open && !run(open, es).0 {
            1nat
        } else {
            0nat
        }),
    decreases es.len(),
{
    if es.len() > 0 {
        let (o1, c1) = step(open, es[0]);
        let c2 = run(o1, es.drop_first()).1;
        law_teardown_once(o1, es.drop_first());
        if !o1 {
            law_closed_is_terminal(es.drop_first());
        }
        lemma_inbound_endings_concat(c1, c2);
        reveal_with_fuel(inbound_endings, 4);
        let t = teardown();
        assert(t.drop_first() =~= seq![PumpCommand::CloseTransport, PumpCommand::EndInbound]);
        assert(t.drop_first().drop_first() =~= seq![PumpCommand::EndInbound]);
        assert(t.drop_first().drop_first().drop_first() =~= Seq::<PumpCommand>::empty());
        if c1.len() == 1 {
            assert(c1.drop_first() =~= Seq::<PumpCommand>::empty());
        }
    }
}

impl Pump {
    pub closed spec fn is_open(&self) -> bool {
        self.open
    }

    /// A pump for a freshly opened connection.
    pub fn new() -> (r: Pump)
        ensures
            r.is_open(),
    {
        Pump { open: true }
    }

    pub fn open(&self) -> (r: bool)
        ensures
            r == self.is_open(),
    {
        self.open
    }

    /// Decides what to do about one event. Per-frame failures never end the
    /// connection; a remote close, the end of either stream, or cancellation
    /// does, and yields the teardown exactly once.
    pub fn handle(&mut self, event: PumpEvent) -> (cmds: Vec<PumpCommand>)
        ensures
            (final(self).is_open(), cmds@) == step(old(self).is_open(), event),
    {
        if !self.open {
            return Vec::new();
        }
        let ends = match &event {
            PumpEvent::OutboundClosed | PumpEvent::InboundEnded | PumpEvent::Cancelled => true,
            PumpEvent::Inbound(Frame::Close(_)) => true,
            _ => false,
        };
        if ends {
            self.open = false;
            let cmds = vec![
                PumpCommand::Transmit(Frame::Close(None)),
                PumpCommand::CloseTransport,
                PumpCommand::EndInbound,
            ];
            assert(cmds@ =~= teardown());
            return cmds;
        }
        let cmds = match event {
            PumpEvent::Outbound(f) => vec![PumpCommand::Transmit(f)],
            PumpEvent::Inbound(f) => match f {
                Frame::Ping(p) => vec![PumpCommand::Transmit(Frame::Pong(p))],
                Frame::Pong(_) => vec![PumpCommand::Report(Notice::UnexpectedFrame)],
                other => vec![PumpCommand::Deliver(other)],
            },
            PumpEvent::InboundUnknown => vec![PumpCommand::Report(Notice::UnexpectedFrame)],
            _ => vec![PumpCommand::Report(Notice::ReadError)],
        };
        assert(cmds@ =~= step(true, event).1);
        cmds
    }
}

} // verus!
