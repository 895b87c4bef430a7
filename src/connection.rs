//! The lifecycle of the control channel to the router, as a state machine.
//! Whoever owns the transport performs each returned action and reports what
//! came of it as the next event; the machine itself does no I/O.
use vstd::prelude::*;

verus! {

/// How long to wait after the stream ends, or a reconnection fails, before
/// connecting again.
pub const RECONNECT_DELAY_MILLIS: u64 = 1000;

#[derive(PartialEq, Eq, Structural, Clone, Copy, Debug)]
pub enum LinkStatus {
    Disconnected,
    Connecting,
    Connected,
    Reconnecting,
}

/// What the owner of the transport observed.
#[derive(PartialEq, Eq, Structural, Clone, Copy, Debug)]
pub enum LinkEvent {
    /// The transport was established.
    Opened,
    /// Establishing the transport failed.
    OpenFailed,
    /// The receive stream ended, cleanly or with an error.
    StreamEnded,
    /// The reconnection delay has passed.
    DelayElapsed,
}

/// What the owner of the transport is to do next.
#[derive(PartialEq, Eq, Structural, Clone, Copy, Debug)]
pub enum LinkAction {
    Nothing,
    /// Establish the transport to the router's URL.
    Connect,
    /// Send the host-ready announcement to the broadcast id.
    Announce,
    /// Sleep for the given time, then report `DelayElapsed`.
    Wait { millis: u64 },
    /// Hand the failure of a requested connection back to whoever asked for it.
    Abort,
}

#[derive(PartialEq, Eq, Structural, Clone, Copy, Debug)]
pub struct Link {
    pub status: LinkStatus,
    /// Whether a transport was ever established, so that the host has been
    /// announced on it.
    pub established: bool,
}

/// One transition: the next state and the action for an event.
pub open spec fn step(l: Link, e: LinkEvent) -> (Link, LinkAction) {
    match (l.status, e) {
        (LinkStatus::Connecting, LinkEvent::Opened) => (
            Link { status: LinkStatus::Connected, established: true },
            LinkAction::Announce,
        ),
        (LinkStatus::Connecting, LinkEvent::OpenFailed) => (
            Link { status: LinkStatus::Reconnecting, established: l.established },
            LinkAction::Wait { millis: RECONNECT_DELAY_MILLIS },
        ),
        (LinkStatus::Connected, LinkEvent::StreamEnded) => (
            Link { status: LinkStatus::Reconnecting, established: true },
            LinkAction::Wait { millis: RECONNECT_DELAY_MILLIS },
        ),
        (LinkStatus::Reconnecting, LinkEvent::DelayElapsed) => (
            Link { status: LinkStatus::Connecting, established: l.established },
            LinkAction::Connect,
        ),
        _ => (l, LinkAction::Nothing),
    }
}

/// The outcome of a connection that the host itself asked for (with a new
/// URL, or at startup), in whatever state the link was: on success the new
/// transport replaces any earlier one and the link is up, announcing the host
/// where it had been up before (the first announcement is the host's own
/// start); on failure the caller gets the error at once and the link, with
/// any earlier transport, stays as it was.
pub open spec fn requested_step(l: Link, opened: bool) -> (Link, LinkAction) {
    if opened {
        (
            Link { status: LinkStatus::Connected, established: true },
            if l.established {
                LinkAction::Announce
            } else {
                LinkAction::Nothing
            },
        )
    } else {
        (l, LinkAction::Abort)
    }
}

/// The state after a run of events, and the actions in the order they came.
pub open spec fn run(l: Link, events: Seq<LinkEvent>) -> (Link, Seq<LinkAction>)
    decreases events.len(),
{
    if events.len() == 0 {
        (l, Seq::empty())
    } else {
        let (l1, a) = step(l, events[0]);
        let (l2, rest) = run(l1, events.drop_first());
        (l2, seq![a] + rest)
    }
}

/// `n` failed reconnections in a row: each delay passes and the attempt fails.
pub open spec fn failed_retries(n: nat) -> Seq<LinkEvent>
    decreases n,
{
    if n == 0 {
        Seq::empty()
    } else {
        seq![LinkEvent::DelayElapsed, LinkEvent::OpenFailed] + failed_retries((n - 1) as nat)
    }
}

/// What the link does over `n` failed reconnections: one connection attempt
/// and one fixed wait each.
pub open spec fn retry_actions(n: nat) -> Seq<LinkAction>
    decreases n,
{
    if n == 0 {
        Seq::empty()
    } else {
        seq![LinkAction::Connect, LinkAction::Wait { millis: RECONNECT_DELAY_MILLIS }]
            + retry_actions((n - 1) as nat)
    }
}

impl Link {
    /// A link that has never been connected.
    pub fn new() -> (r: Link)
        ensures
            r == (Link { status: LinkStatus::Disconnected, established: false }),
    {
        Link { status: LinkStatus::Disconnected, established: false }
    }

    /// Take the outcome of a requested connection.
    pub fn requested(&mut self, opened: bool) -> (a: LinkAction)
        ensures
            *final(self) == requested_step(*old(self), opened).0,
            a == requested_step(*old(self), opened).1,
    {
        if opened {
            let announce = self.established;
            *self = Link { status: LinkStatus::Connected, established: true };
            if announce {
                LinkAction::Announce
            } else {
                LinkAction::Nothing
            }
        } else {
            LinkAction::Abort
        }
    }

    /// Take one event: move to the next state and say what to do.
    pub fn on_event(&mut self, e: LinkEvent) -> (a: LinkAction)
        ensures
            *final(self) == step(*old(self), e).0,
            a == step(*old(self), e).1,
    {
        let l = *self;
        let (next, a) = match l.status {
            LinkStatus::Connecting => match e {
                LinkEvent::Opened => (
                    Link { status: LinkStatus::Connected, established: true },
                    LinkAction::Announce,
                ),
                LinkEvent::OpenFailed => (
                    Link { status: LinkStatus::Reconnecting, established: l.established },
                    LinkAction::Wait { millis: RECONNECT_DELAY_MILLIS },
                ),
                _ => (l, LinkAction::Nothing),
            },
            LinkStatus::Connected => match e {
                LinkEvent::StreamEnded => (
                    Link { status: LinkStatus::Reconnecting, established: true },
                    LinkAction::Wait { millis: RECONNECT_DELAY_MILLIS },
                ),
                _ => (l, LinkAction::Nothing),
            },
            LinkStatus::Reconnecting => match e {
                LinkEvent::DelayElapsed => (
                    Link { status: LinkStatus::Connecting, established: l.established },
                    LinkAction::Connect,
                ),
                _ => (l, LinkAction::Nothing),
            },
            LinkStatus::Disconnected => (l, LinkAction::Nothing),
        };
        *self = next;
        a
    }
}

/// A connection attempt is made exactly when the reconnection delay has passed
/// while the link waits to reconnect; no other state or event leads to one.
pub proof fn lemma_connect_only_after_delay(l: Link, e: LinkEvent)
    ensures
        step(l, e).1 == LinkAction::Connect <==> (l.status == LinkStatus::Reconnecting && e
            == LinkEvent::DelayElapsed),
{
}

/// Once the link has been up, the end of the stream never stops it: it waits
/// the fixed delay, and then, for any number `n` of failed attempts, makes
/// exactly one attempt per delay and waits the same delay again, ending ready
/// for the next attempt. No count of attempts is kept and none is reached.
pub proof fn lemma_retries_forever(n: nat)
    ensures
        step(Link { status: LinkStatus::Connected, established: true }, LinkEvent::StreamEnded)
            == (Link { status: LinkStatus::Reconnecting, established: true }, LinkAction::Wait {
            millis: RECONNECT_DELAY_MILLIS,
        }),
        run(Link { status: LinkStatus::Reconnecting, established: true }, failed_retries(n)) == (
        Link { status: LinkStatus::Reconnecting, established: true }, retry_actions(n)),
    decreases n,
{
    let l = Link { status: LinkStatus::Reconnecting, established: true };
    if n > 0 {
        lemma_retries_forever((n - 1) as nat);
        let evs = failed_retries(n);
        assert(evs.drop_first().drop_first() =~= failed_retries((n - 1) as nat));
        let l1 = Link { status: LinkStatus::Connecting, established: true };
        assert(evs.drop_first()[0] == LinkEvent::OpenFailed);
        let (_, acts2) = run(l1, evs.drop_first());
        assert(acts2 =~= seq![LinkAction::Wait { millis: RECONNECT_DELAY_MILLIS }]
            + retry_actions((n - 1) as nat));
        assert(run(l, evs).1 =~= retry_actions(n));
    }
}

/// A successful reconnection brings the link back up and announces the host.
pub proof fn lemma_reconnect_announces()
    ensures
        run(
            Link { status: LinkStatus::Reconnecting, established: true },
            seq![LinkEvent::DelayElapsed, LinkEvent::Opened],
        ) == (Link { status: LinkStatus::Connected, established: true }, seq![
            LinkAction::Connect,
            LinkAction::Announce,
        ]),
{
    let evs = seq![LinkEvent::DelayElapsed, LinkEvent::Opened];
    assert(evs.drop_first() =~= seq![LinkEvent::Opened]);
    assert(evs.drop_first().drop_first() =~= Seq::<LinkEvent>::empty());
    reveal_with_fuel(run, 3);
    assert(run(Link { status: LinkStatus::Reconnecting, established: true }, evs).1 =~= seq![
        LinkAction::Connect,
        LinkAction::Announce,
    ]);
}

} // verus!
