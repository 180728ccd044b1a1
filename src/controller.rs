use vstd::prelude::*;

use crate::backoff::{
    admits, after_attempt, after_attempts, lemma_burst_from_empty,
    lemma_spaced_reconnects_admitted, spaced, within_one_window, ReconnectLedger,
    MAX_RECENT_RECONNECTS,
};
use crate::events::LibrespotEvent;

verus! {

/// Commands delivered to the controller, handled strictly in arrival order.
#[derive(Clone, Copy, Debug, PartialEq, Eq, Structural)]
pub enum ControlMessage {
    Shutdown,
    Play,
    Pause,
    Next,
    Previous,
    RefreshToken,
    /// Posted by the controller's own supervision task when the session ends.
    AutoReconnect,
}

/// Where the controller stands in its lifecycle.
#[derive(Clone, Copy, Debug, PartialEq, Eq, Structural)]
pub enum Phase {
    /// Created; no login attempted yet.
    Initial,
    /// A login is in flight; `reconnect` tells an automatic reconnect from
    /// the first login.
    Connecting { reconnect: bool },
    /// A session and its remote-control surface exist.
    Connected,
    /// No session, and none will be attempted; waits for `Shutdown`.
    Idle,
    /// The run has ended.
    Terminated,
}

/// What the controller is told.
#[derive(Debug)]
pub enum ControllerInput {
    /// Begin the run with the first login.
    Start,
    /// A command taken off the control channel at clock reading `now`
    /// (milliseconds).
    Message { msg: ControlMessage, now: u64 },
    /// The login asked for by [`Directive::Connect`] established a session.
    LoginSucceeded,
    /// The login asked for by [`Directive::Connect`] failed.
    LoginFailed { message: String },
}

/// Imperative playback calls on the remote-control surface.
#[derive(Clone, Copy, Debug, PartialEq, Eq, Structural)]
pub enum SurfaceCommand {
    Play,
    Pause,
    Next,
    Previous,
}

/// What the host carries out once it has published a reaction's events.
#[derive(Clone, Copy, Debug, PartialEq, Eq, Structural)]
pub enum Directive {
    Nothing,
    /// Drop any surface and session, then try to establish a session with the
    /// current credentials and report the outcome.
    Connect,
    /// On the new session build the player and the remote-control surface,
    /// start the supervision and event-translation tasks and request an
    /// access token.
    Launch,
    /// Forward a call to the remote-control surface.
    Forward(SurfaceCommand),
    /// Request a fresh access token for the session.
    RequestToken,
    /// Drop the surface and the session.
    Release,
    /// Ask the surface to shut down, then end the run.
    Stop,
    /// End the run.
    Exit,
}

/// A notification as the controller's contracts speak of it.
pub enum Notice {
    Connecting,
    Connected,
    ConnectionError(Seq<char>),
    Shutdown,
    StartReconnect,
}

/// `e` is the notification that `n` describes.
pub open spec fn shows(e: LibrespotEvent, n: Notice) -> bool {
    match n {
        Notice::Connecting => e is Connecting,
        Notice::Connected => e is Connected,
        Notice::ConnectionError(m) => e matches LibrespotEvent::ConnectionError { message } && message@
            == m,
        Notice::Shutdown => e is Shutdown,
        Notice::StartReconnect => e is StartReconnect,
    }
}

/// The events are, in order, the notifications that `ns` describes.
pub open spec fn shows_all(es: Seq<LibrespotEvent>, ns: Seq<Notice>) -> bool {
    &&& es.len() == ns.len()
    &&& forall|i: int| 0 <= i < es.len() ==> shows(#[trigger] es[i], ns[i])
}

/// The message reported when automatic reconnects have run out.
pub open spec fn too_many_reconnects() -> Seq<char> {
    "too many reconnects"@
}

/// The controller's state and output after one input.
pub struct Transition {
    pub phase: Phase,
    pub ledger: Seq<u64>,
    pub notices: Seq<Notice>,
    pub directive: Directive,
}

/// Nothing happens.
pub open spec fn unchanged(phase: Phase, ledger: Seq<u64>) -> Transition {
    Transition { phase, ledger, notices: seq![], directive: Directive::Nothing }
}

/// How a command taken off the control channel is handled.
pub open spec fn on_message(phase: Phase, ledger: Seq<u64>, msg: ControlMessage, now: u64) -> Transition {
    match phase {
        Phase::Terminated => unchanged(phase, ledger),
        Phase::Connected => match msg {
            ControlMessage::Play => Transition {
                directive: Directive::Forward(SurfaceCommand::Play),
                ..unchanged(phase, ledger)
            },
            ControlMessage::Pause => Transition {
                directive: Directive::Forward(SurfaceCommand::Pause),
                ..unchanged(phase, ledger)
            },
            ControlMessage::Next => Transition {
                directive: Directive::Forward(SurfaceCommand::Next),
                ..unchanged(phase, ledger)
            },
            ControlMessage::Previous => Transition {
                directive: Directive::Forward(SurfaceCommand::Previous),
                ..unchanged(phase, ledger)
            },
            ControlMessage::RefreshToken => Transition {
                directive: Directive::RequestToken,
                ..unchanged(phase, ledger)
            },
            ControlMessage::Shutdown => Transition {
                phase: Phase::Terminated,
                ledger,
                notices: seq![Notice::Shutdown],
                directive: Directive::Stop,
            },
            ControlMessage::AutoReconnect => if admits(ledger, now) {
                Transition {
                    phase: Phase::Connecting { reconnect: true },
                    ledger: after_attempt(ledger, now),
                    notices: seq![Notice::StartReconnect, Notice::Connecting],
                    directive: Directive::Connect,
                }
            } else {
                Transition {
                    phase: Phase::Idle,
                    ledger: after_attempt(ledger, now),
                    notices: seq![
                        Notice::StartReconnect,
                        Notice::ConnectionError(too_many_reconnects()),
                    ],
                    directive: Directive::Release,
                }
            },
        },
        _ => match msg {
            ControlMessage::Shutdown => Transition {
                phase: Phase::Terminated,
                ledger,
                notices: seq![],
                directive: Directive::Exit,
            },
            _ => unchanged(phase, ledger),
        },
    }
}

/// How the controller reacts to one input.
pub open spec fn transition(phase: Phase, ledger: Seq<u64>, input: ControllerInput) -> Transition {
    match input {
        ControllerInput::Start => if phase is Initial {
            Transition {
                phase: Phase::Connecting { reconnect: false },
                ledger,
                notices: seq![Notice::Connecting],
                directive: Directive::Connect,
            }
        } else {
            unchanged(phase, ledger)
        },
        ControllerInput::LoginSucceeded => if phase is Connecting {
            Transition {
                phase: Phase::Connected,
                ledger,
                notices: seq![Notice::Connected],
                directive: Directive::Launch,
            }
        } else {
            unchanged(phase, ledger)
        },
        ControllerInput::LoginFailed { message } => match phase {
            Phase::Connecting { reconnect } => Transition {
                phase: if reconnect {
                    Phase::Idle
                } else {
                    Phase::Terminated
                },
                ledger,
                notices: seq![Notice::ConnectionError(message@)],
                directive: if reconnect {
                    Directive::Nothing
                } else {
                    Directive::Exit
                },
            },
            _ => unchanged(phase, ledger),
        },
        ControllerInput::Message { msg, now } => on_message(phase, ledger, msg, now),
    }
}

/// `Shutdown` while no session exists ends the run at once and publishes
/// nothing.
pub proof fn lemma_shutdown_without_session(phase: Phase, ledger: Seq<u64>, now: u64)
    requires
        !(phase is Connected),
        !(phase is Terminated),
    ensures
        ({
            let t = transition(
                phase,
                ledger,
                ControllerInput::Message { msg: ControlMessage::Shutdown, now },
            );
            &&& t.phase == Phase::Terminated
            &&& t.ledger == ledger
            &&& t.notices == Seq::<Notice>::empty()
            &&& t.directive == Directive::Exit
        }),
{
}

/// When the session ends while the reconnects of the window are used up, the
/// controller reports exactly one connection error, attempts no login and
/// drops the session.
pub proof fn lemma_exhausted_reconnect_refused(ledger: Seq<u64>, now: u64)
    requires
        !admits(ledger, now),
    ensures
        ({
            let t = transition(
                Phase::Connected,
                ledger,
                ControllerInput::Message { msg: ControlMessage::AutoReconnect, now },
            );
            &&& t.phase == Phase::Idle
            &&& t.notices == seq![
                Notice::StartReconnect,
                Notice::ConnectionError(too_many_reconnects()),
            ]
            &&& t.directive == Directive::Release
        }),
{
}

/// A fresh controller whose session ends more often than allowed within one
/// window refuses the reconnect after the allowed number: the end of the
/// session that follows them is reported with one connection error and no
/// login.
pub proof fn lemma_burst_of_disconnects_refused(times: Seq<u64>)
    requires
        times.len() > MAX_RECENT_RECONNECTS,
        within_one_window(times),
    ensures
        ({
            let m = MAX_RECENT_RECONNECTS as int;
            let t = transition(
                Phase::Connected,
                after_attempts(Seq::empty(), times.take(m)),
                ControllerInput::Message { msg: ControlMessage::AutoReconnect, now: times[m] },
            );
            &&& t.phase == Phase::Idle
            &&& t.notices == seq![
                Notice::StartReconnect,
                Notice::ConnectionError(too_many_reconnects()),
            ]
            &&& t.directive == Directive::Release
        }),
{
    lemma_burst_from_empty(times);
    assert(!crate::backoff::admitted_at(Seq::empty(), times, MAX_RECENT_RECONNECTS as int));
}

/// Without a session and no login in flight, the controller never starts a
/// login on its own, whatever it is told.
pub proof fn lemma_idle_stays_down(ledger: Seq<u64>, input: ControllerInput)
    ensures
        transition(Phase::Idle, ledger, input).directive != Directive::Connect,
        ({
            let p = transition(Phase::Idle, ledger, input).phase;
            p is Idle || p is Terminated
        }),
{
}

/// When every end of the session comes at least one window after the
/// previous reconnect, a login is always attempted, and the ledger stays
/// spaced so that this goes on indefinitely.
pub proof fn lemma_spaced_disconnect_reconnects(ledger: Seq<u64>, now: u64)
    requires
        spaced(ledger.push(now)),
    ensures
        ({
            let t = transition(
                Phase::Connected,
                ledger,
                ControllerInput::Message { msg: ControlMessage::AutoReconnect, now },
            );
            &&& t.phase == Phase::Connecting { reconnect: true }
            &&& t.notices == seq![Notice::StartReconnect, Notice::Connecting]
            &&& t.directive == Directive::Connect
            &&& spaced(t.ledger)
        }),
{
    let times = seq![now];
    assert(ledger + times =~= ledger.push(now));
    lemma_spaced_reconnects_admitted(ledger, times);
    assert(times.take(0) =~= Seq::<u64>::empty());
    assert(crate::backoff::admitted_at(ledger, times, 0));
    assert(after_attempts(ledger, times.take(0)) == ledger);
    assert(times.take(1) =~= times);
    assert(times.drop_last() =~= times.take(0));
    crate::backoff::lemma_spaced_state(ledger, times, 1);
}

/// After the session ends unexpectedly, `StartReconnect` is followed either
/// by `Connecting` and `Connected`, or by a connection error, never by both
/// `Connected` and an error.
pub proof fn lemma_reconnect_outcome_exclusive(
    ledger: Seq<u64>,
    now: u64,
    outcome: ControllerInput,
)
    requires
        outcome is LoginSucceeded || outcome is LoginFailed,
    ensures
        ({
            let t = transition(
                Phase::Connected,
                ledger,
                ControllerInput::Message { msg: ControlMessage::AutoReconnect, now },
            );
            let u = transition(t.phase, t.ledger, outcome);
            if t.directive == Directive::Connect {
                &&& t.notices == seq![Notice::StartReconnect, Notice::Connecting]
                &&& outcome is LoginSucceeded ==> u.notices == seq![Notice::Connected]
                &&& outcome matches ControllerInput::LoginFailed { message } ==> u.notices
                    == seq![Notice::ConnectionError(message@)]
            } else {
                &&& t.notices == seq![
                    Notice::StartReconnect,
                    Notice::ConnectionError(too_many_reconnects()),
                ]
                &&& u.notices == Seq::<Notice>::empty()
            }
        }),
{
}

/// The events to publish, in order, and what to carry out after them.
#[derive(Debug)]
pub struct Reaction {
    pub events: Vec<LibrespotEvent>,
    pub directive: Directive,
}

/// The decisions of one player session: login, command dispatch and
/// automatic reconnection.
pub struct Controller {
    phase: Phase,
    ledger: ReconnectLedger,
}

impl View for Controller {
    type V = (Phase, Seq<u64>);

    closed spec fn view(&self) -> (Phase, Seq<u64>) {
        (self.phase, self.ledger@)
    }
}

impl Controller {
    /// A controller that has not logged in yet and has no reconnect recorded.
    pub fn new() -> (r: Controller)
        ensures
            r@ == (Phase::Initial, Seq::<u64>::empty()),
    {
        Controller { phase: Phase::Initial, ledger: ReconnectLedger::new() }
    }

    /// Where the controller stands.
    pub fn phase(&self) -> (r: Phase)
        ensures
            r == self@.0,
    {
        self.phase
    }

    /// Number of automatic reconnects currently recorded.
    pub fn recent_reconnects(&self) -> (r: usize)
        ensures
            r == self@.1.len(),
    {
        self.ledger.len()
    }

    fn react(&mut self, phase: Phase, events: Vec<LibrespotEvent>, directive: Directive) -> (r:
        Reaction)
        ensures
            final(self)@ == (phase, old(self)@.1),
            r.events == events,
            r.directive == directive,
    {
        self.phase = phase;
        Reaction { events, directive }
    }

    fn handle_message(&mut self, msg: ControlMessage, now: u64) -> (r: Reaction)
        ensures
            ({
                let t = on_message(old(self)@.0, old(self)@.1, msg, now);
                &&& final(self)@ == (t.phase, t.ledger)
                &&& shows_all(r.events@, t.notices)
                &&& r.directive == t.directive
            }),
    {
        match self.phase {
            Phase::Terminated => self.react(Phase::Terminated, Vec::new(), Directive::Nothing),
            Phase::Connected => match msg {
                ControlMessage::Play => self.react(
                    Phase::Connected,
                    Vec::new(),
                    Directive::Forward(SurfaceCommand::Play),
                ),
                ControlMessage::Pause => self.react(
                    Phase::Connected,
                    Vec::new(),
                    Directive::Forward(SurfaceCommand::Pause),
                ),
                ControlMessage::Next => self.react(
                    Phase::Connected,
                    Vec::new(),
                    Directive::Forward(SurfaceCommand::Next),
                ),
                ControlMessage::Previous => self.react(
                    Phase::Connected,
                    Vec::new(),
                    Directive::Forward(SurfaceCommand::Previous),
                ),
                ControlMessage::RefreshToken => self.react(
                    Phase::Connected,
                    Vec::new(),
                    Directive::RequestToken,
                ),
                ControlMessage::Shutdown => {
                    let events = vec![LibrespotEvent::Shutdown];
                    self.react(Phase::Terminated, events, Directive::Stop)
                },
                ControlMessage::AutoReconnect => {
                    let allowed = self.ledger.try_reconnect(now);
                    if allowed {
                        let events = vec![LibrespotEvent::StartReconnect, LibrespotEvent::Connecting];
                        self.phase = Phase::Connecting { reconnect: true };
                        Reaction { events, directive: Directive::Connect }
                    } else {
                        let message = String::from_str("too many reconnects");
                        let events = vec![
                            LibrespotEvent::StartReconnect,
                            LibrespotEvent::ConnectionError { message },
                        ];
                        self.phase = Phase::Idle;
                        Reaction { events, directive: Directive::Release }
                    }
                },
            },
            phase => match msg {
                ControlMessage::Shutdown => self.react(
                    Phase::Terminated,
                    Vec::new(),
                    Directive::Exit,
                ),
                _ => self.react(phase, Vec::new(), Directive::Nothing),
            },
        }
    }

    /// Reacts to one input: updates the state and returns the events to
    /// publish and what to carry out, as `transition` describes.
    pub fn handle(&mut self, input: ControllerInput) -> (r: Reaction)
        ensures
            ({
                let t = transition(old(self)@.0, old(self)@.1, input);
                &&& final(self)@ == (t.phase, t.ledger)
                &&& shows_all(r.events@, t.notices)
                &&& r.directive == t.directive
            }),
    {
        match input {
            ControllerInput::Start => {
                if let Phase::Initial = self.phase {
                    let events = vec![LibrespotEvent::Connecting];
                    self.react(Phase::Connecting { reconnect: false }, events, Directive::Connect)
                } else {
                    let phase = self.phase;
                    self.react(phase, Vec::new(), Directive::Nothing)
                }
            },
            ControllerInput::LoginSucceeded => {
                if let Phase::Connecting { .. } = self.phase {
                    let events = vec![LibrespotEvent::Connected];
                    self.react(Phase::Connected, events, Directive::Launch)
                } else {
                    let phase = self.phase;
                    self.react(phase, Vec::new(), Directive::Nothing)
                }
            },
            ControllerInput::LoginFailed { message } => {
                if let Phase::Connecting { reconnect } = self.phase {
                    let events = vec![LibrespotEvent::ConnectionError { message }];
                    if reconnect {
                        self.react(Phase::Idle, events, Directive::Nothing)
                    } else {
                        self.react(Phase::Terminated, events, Directive::Exit)
                    }
                } else {
                    let phase = self.phase;
                    self.react(phase, Vec::new(), Directive::Nothing)
                }
            },
            ControllerInput::Message { msg, now } => self.handle_message(msg, now),
        }
    }
}

} // verus!
