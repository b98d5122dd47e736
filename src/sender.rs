use vstd::prelude::*;
use crate::config::{ConfigView, NotifierConfig};

verus! {

/// Where the sender's datagrams go.
#[derive(Debug)]
pub struct Destination {
    pub host: String,
    pub port: usize,
}

impl View for Destination {
    type V = (Seq<char>, usize);

    open spec fn view(&self) -> (Seq<char>, usize) {
        (self.host@, self.port)
    }
}

/// The destination that a configuration names.
pub open spec fn destination_of(c: ConfigView) -> (Seq<char>, usize) {
    (c.host, c.port)
}

impl Destination {
    /// The destination that `config` names.
    pub fn of_config(config: &NotifierConfig) -> (r: Self)
        ensures
            r@ == destination_of(config@),
    {
        Destination { host: config.host.clone(), port: config.port }
    }
}

/// Where the sender stands in handling one message.
#[derive(Debug)]
pub enum SenderPhase {
    /// A new run, with no socket and no message in hand.
    Starting,
    /// The run's first socket, for this destination, is being made; no
    /// message is in hand.
    Opening(Destination),
    /// Waiting for the next message of the queue.
    Waiting,
    /// A message is in hand and a socket for this destination is being made.
    Connecting(Destination),
    /// A message is in hand and being sent.
    Sending,
    /// The run has failed; the supervisor starts a fresh one.
    Exited,
}

pub ghost enum PhaseView {
    Starting,
    Opening((Seq<char>, usize)),
    Waiting,
    Connecting((Seq<char>, usize)),
    Sending,
    Exited,
}

/// What happened since the sender's last decision.
#[derive(Clone, Copy, Debug, PartialEq, Eq, Structural)]
pub enum SenderEvent {
    /// The run has begun.
    Started,
    /// A message was taken from the queue.
    Dequeued,
    /// The new socket was bound and connected.
    Connected,
    /// Binding or connecting the new socket failed.
    ConnectFailed,
    /// The message was sent as one datagram.
    Sent,
    /// Sending the message failed.
    SendFailed,
}

/// What the sender asks to be done next.
#[derive(Debug)]
pub enum SenderAction {
    /// Make a new socket bound to an ephemeral port, connected to this
    /// destination, and drop the old one.
    Connect(Destination),
    /// Send the message in hand on the current socket.
    Send,
    /// Take the next message from the queue.
    AwaitMessage,
    /// End this run with an error.
    Exit,
}

pub ghost enum ActionView {
    Connect((Seq<char>, usize)),
    Send,
    AwaitMessage,
    Exit,
}

impl View for SenderAction {
    type V = ActionView;

    open spec fn view(&self) -> ActionView {
        match self {
            SenderAction::Connect(d) => ActionView::Connect(d@),
            SenderAction::Send => ActionView::Send,
            SenderAction::AwaitMessage => ActionView::AwaitMessage,
            SenderAction::Exit => ActionView::Exit,
        }
    }
}

/// The decisions of one run of the UDP sender: when to make a socket, when to
/// send, and when the run has failed.
#[derive(Debug)]
pub struct UdpSender {
    phase: SenderPhase,
    socket: Option<Destination>,
}

pub ghost struct SenderView {
    pub phase: PhaseView,
    /// The destination of the current socket, if there is one.
    pub socket: Option<(Seq<char>, usize)>,
}

impl View for UdpSender {
    type V = SenderView;

    closed spec fn view(&self) -> SenderView {
        SenderView {
            phase: match self.phase {
                SenderPhase::Starting => PhaseView::Starting,
                SenderPhase::Opening(d) => PhaseView::Opening(d@),
                SenderPhase::Waiting => PhaseView::Waiting,
                SenderPhase::Connecting(d) => PhaseView::Connecting(d@),
                SenderPhase::Sending => PhaseView::Sending,
                SenderPhase::Exited => PhaseView::Exited,
            },
            socket: match self.socket {
                Some(d) => Some(d@),
                None => None,
            },
        }
    }
}

/// A run that has just started: no socket, no message in hand.
pub open spec fn fresh_sender() -> SenderView {
    SenderView { phase: PhaseView::Starting, socket: None }
}

/// The sender's transition on `event`, under the configuration `c` read for
/// this message.
///
/// A run first makes a socket for the configured destination, and only then
/// waits for a message: where that first connect fails, the run ends with no
/// message taken from the queue. A dequeued message is sent on the current
/// socket when its destination is still the configured one; else a new socket
/// is made first, and the old one is dropped. A failed connect or send with a
/// message in hand ends the run, and that message is dropped with it; so does
/// an event that comes out of turn.
pub open spec fn sender_next(s: SenderView, event: SenderEvent, c: ConfigView) -> (SenderView, ActionView) {
    match (s.phase, event) {
        (PhaseView::Starting, SenderEvent::Started) => {
            (
                SenderView { phase: PhaseView::Opening(destination_of(c)), socket: None },
                ActionView::Connect(destination_of(c)),
            )
        },
        (PhaseView::Opening(d), SenderEvent::Connected) => {
            (SenderView { phase: PhaseView::Waiting, socket: Some(d) }, ActionView::AwaitMessage)
        },
        (PhaseView::Waiting, SenderEvent::Dequeued) => {
            if s.socket == Some(destination_of(c)) {
                (SenderView { phase: PhaseView::Sending, socket: s.socket }, ActionView::Send)
            } else {
                (
                    SenderView { phase: PhaseView::Connecting(destination_of(c)), socket: None },
                    ActionView::Connect(destination_of(c)),
                )
            }
        },
        (PhaseView::Connecting(d), SenderEvent::Connected) => {
            (SenderView { phase: PhaseView::Sending, socket: Some(d) }, ActionView::Send)
        },
        (PhaseView::Sending, SenderEvent::Sent) => {
            (SenderView { phase: PhaseView::Waiting, socket: s.socket }, ActionView::AwaitMessage)
        },
        _ => (SenderView { phase: PhaseView::Exited, socket: None }, ActionView::Exit),
    }
}

impl UdpSender {
    /// A fresh run: no socket yet and no message in hand. Its first step is
    /// `Started`.
    pub fn new() -> (r: Self)
        ensures
            r@ == fresh_sender(),
    {
        UdpSender { phase: SenderPhase::Starting, socket: None }
    }

    /// Whether the run has failed.
    pub fn has_exited(&self) -> (r: bool)
        ensures
            r == (self@.phase == PhaseView::Exited),
    {
        match self.phase {
            SenderPhase::Exited => true,
            _ => false,
        }
    }

    /// Takes one step on `event`; `config` is the configuration read when
    /// the message was dequeued.
    pub fn step(&mut self, event: SenderEvent, config: &NotifierConfig) -> (r: SenderAction)
        ensures
            (final(self)@, r@) == sender_next(old(self)@, event, config@),
    {
        let mut phase = SenderPhase::Exited;
        std::mem::swap(&mut phase, &mut self.phase);
        match (phase, event) {
            (SenderPhase::Starting, SenderEvent::Started) => {
                self.socket = None;
                self.phase = SenderPhase::Opening(Destination::of_config(config));
                SenderAction::Connect(Destination::of_config(config))
            },
            (SenderPhase::Opening(d), SenderEvent::Connected) => {
                self.socket = Some(d);
                self.phase = SenderPhase::Waiting;
                SenderAction::AwaitMessage
            },
            (SenderPhase::Waiting, SenderEvent::Dequeued) => {
                let current = match &self.socket {
                    Some(d) => d.port == config.port && d.host == config.host,
                    None => false,
                };
                if current {
                    self.phase = SenderPhase::Sending;
                    SenderAction::Send
                } else {
                    self.socket = None;
                    self.phase = SenderPhase::Connecting(Destination::of_config(config));
                    SenderAction::Connect(Destination::of_config(config))
                }
            },
            (SenderPhase::Connecting(d), SenderEvent::Connected) => {
                self.socket = Some(d);
                self.phase = SenderPhase::Sending;
                SenderAction::Send
            },
            (SenderPhase::Sending, SenderEvent::Sent) => {
                self.phase = SenderPhase::Waiting;
                SenderAction::AwaitMessage
            },
            _ => {
                self.socket = None;
                self.phase = SenderPhase::Exited;
                SenderAction::Exit
            },
        }
    }
}

/// Restarts a failed long-running task at once, for ever, and counts the
/// restarts.
#[derive(Debug)]
pub struct Supervisor {
    pub restarts: u64,
}

impl Supervisor {
    pub fn new() -> (r: Self)
        ensures
            r.restarts == 0,
    {
        Supervisor { restarts: 0 }
    }

    /// Records that the task ended with an error; the answer is always to
    /// restart it with the same arguments. The count saturates.
    pub fn on_task_exit(&mut self) -> (restart: bool)
        ensures
            restart,
            final(self).restarts == if old(self).restarts == u64::MAX {
                u64::MAX
            } else {
                (old(self).restarts + 1) as u64
            },
    {
        if self.restarts < u64::MAX {
            self.restarts = self.restarts + 1;
        }
        true
    }

    /// Starts a run of the sender: a fresh one after a failure.
    pub fn start_sender(&self) -> (r: UdpSender)
        ensures
            r@ == fresh_sender(),
    {
        UdpSender::new()
    }
}

/// The sender under its supervisor, from a fresh run, over `events`, each
/// with the configuration read at that point: the state it ends in and the
/// actions it asked for. A run that exits is replaced by a fresh one.
pub open spec fn supervised_run(events: Seq<(SenderEvent, ConfigView)>) -> (SenderView, Seq<ActionView>)
    decreases events.len(),
{
    if events.len() == 0 {
        (fresh_sender(), Seq::empty())
    } else {
        let (s, actions) = supervised_run(events.drop_last());
        let (e, c) = events.last();
        let (n, a) = sender_next(s, e, c);
        (if a == ActionView::Exit { fresh_sender() } else { n }, actions.push(a))
    }
}

/// How many of `actions` send a message.
pub open spec fn sends(actions: Seq<ActionView>) -> nat
    decreases actions.len(),
{
    if actions.len() == 0 {
        0
    } else {
        sends(actions.drop_last()) + if actions.last() == ActionView::Send { 1nat } else { 0nat }
    }
}

/// How many of `events` take a message from the queue.
pub open spec fn dequeues(events: Seq<(SenderEvent, ConfigView)>) -> nat
    decreases events.len(),
{
    if events.len() == 0 {
        0
    } else {
        dequeues(events.drop_last()) + if events.last().0 == SenderEvent::Dequeued { 1nat } else { 0nat }
    }
}

/// Whether the sender holds a message taken from the queue.
pub open spec fn holds_message(s: SenderView) -> bool {
    s.phase is Connecting || s.phase is Sending
}

/// Resilience of the supervised sender.
///
/// A message is never sent twice: there are never more sends than messages
/// taken from the queue, counting one more message while a socket is being
/// made for it. A message is only taken while a socket is in place, so a run
/// whose first connect fails ends having taken nothing from the queue. A run
/// that fails (on a connect or on a send) leaves no socket and no message in
/// hand: a message whose send failed is dropped, and the next run first makes
/// a fresh socket for the configured destination.
pub proof fn supervised_sender_is_resilient(events: Seq<(SenderEvent, ConfigView)>, next: ConfigView)
    ensures
        sends(supervised_run(events).1) + (if supervised_run(events).0.phase is Connecting { 1nat } else { 0nat })
            <= dequeues(events),
        sends(supervised_run(events).1) <= dequeues(events),
        supervised_run(events).0.phase is Waiting || supervised_run(events).0.phase is Sending
            ==> supervised_run(events).0.socket is Some,
        sender_next(supervised_run(events).0, SenderEvent::Dequeued, next).1 != ActionView::Exit
            ==> supervised_run(events).0.socket is Some,
        supervised_run(events).1.len() > 0 && supervised_run(events).1.last() == ActionView::Exit
            ==> supervised_run(events).0 == fresh_sender(),
    decreases events.len(),
{
    if events.len() > 0 {
        let before = events.drop_last();
        supervised_sender_is_resilient(before, next);
        let (s, actions) = supervised_run(before);
        let (e, c) = events.last();
        let (n, a) = sender_next(s, e, c);
        assert(actions.push(a).drop_last() =~= actions);
        assert(sends(actions.push(a)) == sends(actions) + if a == ActionView::Send { 1nat } else { 0nat });
        assert(dequeues(events) == dequeues(before) + if e == SenderEvent::Dequeued { 1nat } else { 0nat });
    }
}

/// A new run begins by connecting to the configured destination, with no
/// message in hand; where that connect fails, the run ends still holding
/// none, so nothing was taken from the queue.
pub proof fn run_connects_before_taking_messages(first: ConfigView, later: ConfigView)
    ensures
        !holds_message(fresh_sender()),
        sender_next(fresh_sender(), SenderEvent::Started, first) == (
            SenderView { phase: PhaseView::Opening(destination_of(first)), socket: None },
            ActionView::Connect(destination_of(first)),
        ),
        !holds_message(sender_next(fresh_sender(), SenderEvent::Started, first).0),
        sender_next(sender_next(fresh_sender(), SenderEvent::Started, first).0, SenderEvent::ConnectFailed, later)
            == (SenderView { phase: PhaseView::Exited, socket: None }, ActionView::Exit),
        sender_next(fresh_sender(), SenderEvent::Dequeued, first).1 == ActionView::Exit,
{
}

} // verus!
