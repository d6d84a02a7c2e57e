//! The session: it owns the command queue, the outbound pump's record
//! and the inbound pump, implements the subscribe/unsubscribe protocol
//! on top of the command queue, and walks the lifecycle
//! `Connecting -> Open -> Draining -> Closed`.

use vstd::prelude::*;

use crate::pump::{
    count_keepalives, ClassifiedFrame, InboundPump, ReadOutcome, StepAction,
};
use crate::queue::{CommandQueue, OutboundPump};
use crate::socket::{socket_url, socket_url_chars, url_parses, url_well_formed, EODHDSocketKind};
use crate::wire::{Command, CommandView, OutFrame};

verus! {

/// Where a session stands in its life.
#[derive(Clone, Copy, Debug, PartialEq, Eq, Structural)]
pub enum SessionState {
    /// The transport handshake is under way.
    Connecting,
    /// Both pumps run; commands and ticks flow.
    Open,
    /// Closure was observed or requested; the pumps wind down.
    Draining,
    /// Both pumps have exited and the transport is released.
    Closed,
}

/// What moves a session from one state to the next.
#[derive(Clone, Copy, Debug, PartialEq, Eq, Structural)]
pub enum SessionEvent {
    /// The transport handshake succeeded.
    Connected,
    /// A pump observed that the transport closed.
    CloseObserved,
    /// The caller asked for shutdown.
    ShutdownRequested,
    /// Both pump tasks have exited.
    PumpsExited,
}

/// The lifecycle: connecting becomes open on a successful handshake;
/// an open session drains when closure is observed or requested; a
/// draining session is closed once both pumps have exited.  No other
/// event moves a session.
pub open spec fn transition_spec(s: SessionState, e: SessionEvent) -> SessionState {
    match (s, e) {
        (SessionState::Connecting, SessionEvent::Connected) => SessionState::Open,
        (SessionState::Open, SessionEvent::CloseObserved) => SessionState::Draining,
        (SessionState::Open, SessionEvent::ShutdownRequested) => SessionState::Draining,
        (SessionState::Draining, SessionEvent::PumpsExited) => SessionState::Closed,
        _ => s,
    }
}

/// Applies one lifecycle event.
pub fn session_transition(s: SessionState, e: SessionEvent) -> (r: SessionState)
    ensures
        r == transition_spec(s, e),
{
    match (s, e) {
        (SessionState::Connecting, SessionEvent::Connected) => SessionState::Open,
        (SessionState::Open, SessionEvent::CloseObserved) => SessionState::Draining,
        (SessionState::Open, SessionEvent::ShutdownRequested) => SessionState::Draining,
        (SessionState::Draining, SessionEvent::PumpsExited) => SessionState::Closed,
        (other, _) => other,
    }
}

/// Why a session could not be opened.
#[derive(Clone, Copy, Debug, PartialEq, Eq, Structural)]
pub enum OpenError {
    /// No access token was supplied.
    MissingCredential,
    /// The connection URL built from the inputs is not a URL the
    /// transport could connect to.
    InvalidUrl,
}

/// Why a command could not be submitted: the session is past its open
/// phase and the command queue no longer accepts work.
#[derive(Clone, Copy, Debug, PartialEq, Eq, Structural)]
pub enum SubmitError {
    QueueClosed,
}

/// How many pong commands a submission history holds.
pub open spec fn count_pongs(s: Seq<CommandView>) -> nat
    decreases s.len(),
{
    if s.len() == 0 {
        0
    } else {
        count_pongs(s.drop_last()) + (if s.last() is Pong {
            1nat
        } else {
            0nat
        })
    }
}

/// A realtime session over one transport connection.
pub struct Session<T> {
    state: SessionState,
    url: String,
    commands: CommandQueue,
    outbound: OutboundPump,
    inbound: InboundPump<T>,
}

impl<T> Session<T> {
    /// Where the session stands in its life.
    pub closed spec fn lifecycle(&self) -> SessionState {
        self.state
    }

    /// The connection URL the transport uses.
    pub closed spec fn url_chars(&self) -> Seq<char> {
        self.url@
    }

    /// The command queue.
    pub closed spec fn commands(&self) -> CommandQueue {
        self.commands
    }

    /// The outbound pump's record of written frames.
    pub closed spec fn outbound(&self) -> OutboundPump {
        self.outbound
    }

    /// The inbound pump with the tick-output queue.
    pub closed spec fn inbound(&self) -> InboundPump<T> {
        self.inbound
    }

    /// The session's invariant: both queues are well formed, the
    /// outbound record matches the commands taken, the submission
    /// history holds exactly one pong per keepalive processed, and a
    /// session whose inbound pump exited is past its open phase.
    pub closed spec fn wf(&self) -> bool {
        &&& self.commands.wf()
        &&& self.inbound.wf()
        &&& self.outbound.matches(self.commands)
        &&& count_pongs(self.commands.history()) == count_keepalives(self.inbound.processed())
        &&& self.inbound.is_done() ==> self.state is Draining || self.state is Closed
    }

    /// Opens a session: the credentials are checked, the connection
    /// URL is built and validated, and a session with empty queues in
    /// the open state comes back.  An empty token is refused, as is a
    /// token from which no connectable URL can be built.
    pub fn open(kind: EODHDSocketKind, token: &str, capacity: usize) -> (r: Result<
        Session<T>,
        OpenError,
    >)
        requires
            capacity >= 1,
        ensures
            r is Ok <==> token@.len() > 0 && url_well_formed(socket_url_chars(kind, token@)),
            r matches Err(e) ==> (e is MissingCredential <==> token@.len() == 0),
            r matches Ok(s) ==> s.wf() && s.lifecycle() is Open && s.url_chars()
                == socket_url_chars(kind, token@) && s.commands().history() == Seq::<
                CommandView,
            >::empty() && s.inbound().processed() == Seq::<ClassifiedFrame<T>>::empty() && s.inbound().buffered()
                == Seq::<T>::empty() && s.inbound().delivered() == Seq::<T>::empty()
                && s.inbound().capacity() == capacity && !s.inbound().is_done()
                && !s.inbound().blocked(),
    {
        if token.is_empty() {
            return Err(OpenError::MissingCredential);
        }
        let url = socket_url(kind, token);
        if !url_parses(url.as_str()) {
            return Err(OpenError::InvalidUrl);
        }
        let s = Session {
            state: SessionState::Open,
            url,
            commands: CommandQueue::new(),
            outbound: OutboundPump::new(),
            inbound: InboundPump::new(capacity),
        };
        Ok(s)
    }

    /// The connection URL, for the transport.
    pub fn url(&self) -> (r: &str)
        ensures
            r@ == self.url_chars(),
    {
        self.url.as_str()
    }

    /// The current lifecycle state.
    pub fn current_state(&self) -> (r: SessionState)
        ensures
            r == self.lifecycle(),
    {
        self.state
    }

    /// Submits a command while the session is open.  The command takes
    /// its place behind everything submitted before it; a session past
    /// its open phase refuses the submission and changes nothing.
    fn submit(&mut self, c: Command) -> (r: Result<(), SubmitError>)
        requires
            old(self).wf(),
            !(c@ is Pong),
        ensures
            final(self).wf(),
            r is Ok <==> old(self).lifecycle() is Open,
            old(self).lifecycle() is Open ==> final(self).commands().history() == old(self).commands().history().push(c@) && final(self).commands().taken() == old(self).commands().taken() && final(self).inbound() == old(self).inbound() && final(self).lifecycle() == old(self).lifecycle() && final(self).outbound() == old(self).outbound(),
            !(old(self).lifecycle() is Open) ==> (r matches Err(e) && e is QueueClosed && *final(self) == *old(self)),
    {
        match self.state {
            SessionState::Open => {
                let ghost cv = c@;
                self.commands.submit(c);
                proof {
                    assert(count_pongs(self.commands.history()) == count_pongs(
                        old(self).commands.history(),
                    ) + (if cv is Pong {
                        1nat
                    } else {
                        0nat
                    })) by {
                        assert(self.commands.history().drop_last() =~= old(self).commands.history());
                    }
                }
                Ok(())
            },
            _ => Err(SubmitError::QueueClosed),
        }
    }

    /// Asks the feed to stream a symbol.  Fire and forget: the frame
    /// is queued for the outbound pump; any acknowledgment arrives
    /// later as a status notification on the inbound side.
    pub fn subscribe(&mut self, symbol: &str) -> (r: Result<(), SubmitError>)
        requires
            old(self).wf(),
        ensures
            final(self).wf(),
            r is Ok <==> old(self).lifecycle() is Open,
            old(self).lifecycle() is Open ==> final(self).commands().history() == old(self).commands().history().push(CommandView::Subscribe(symbol@)) && final(self).inbound() == old(self).inbound() && final(self).lifecycle() == old(self).lifecycle(),
            !(old(self).lifecycle() is Open) ==> *final(self) == *old(self),
    {
        self.submit(Command::Subscribe(String::from_str(symbol)))
    }

    /// Asks the feed to stop streaming a symbol.  The connection stays
    /// up: closing the session is a separate, explicit operation.
    pub fn unsubscribe(&mut self, symbol: &str) -> (r: Result<(), SubmitError>)
        requires
            old(self).wf(),
        ensures
            final(self).wf(),
            r is Ok <==> old(self).lifecycle() is Open,
            old(self).lifecycle() is Open ==> final(self).commands().history() == old(self).commands().history().push(CommandView::Unsubscribe(symbol@)) && final(self).inbound() == old(self).inbound() && final(self).lifecycle() == old(self).lifecycle(),
            !(old(self).lifecycle() is Open) ==> *final(self) == *old(self),
    {
        self.submit(Command::Unsubscribe(String::from_str(symbol)))
    }

    /// Queues a literal frame for the wire, for protocol features the
    /// library does not wrap.
    pub fn send_raw(&mut self, payload: &str) -> (r: Result<(), SubmitError>)
        requires
            old(self).wf(),
        ensures
            final(self).wf(),
            r is Ok <==> old(self).lifecycle() is Open,
            old(self).lifecycle() is Open ==> final(self).commands().history() == old(self).commands().history().push(CommandView::RawFrame(payload@)) && final(self).inbound() == old(self).inbound() && final(self).lifecycle() == old(self).lifecycle(),
            !(old(self).lifecycle() is Open) ==> *final(self) == *old(self),
    {
        self.submit(Command::RawFrame(String::from_str(payload)))
    }

    /// One turn of the outbound pump: the oldest queued command comes
    /// back translated to its wire frame, for the transport's write
    /// side.  Commands leave in exactly the order they were submitted.
    pub fn outbound_next(&mut self) -> (r: Option<OutFrame>)
        requires
            old(self).wf(),
        ensures
            final(self).wf(),
            final(self).lifecycle() == old(self).lifecycle(),
            final(self).inbound() == old(self).inbound(),
            final(self).commands().history() == old(self).commands().history(),
            old(self).commands().pending_views().len() == 0 ==> r is None && *final(self) == *old(self),
            old(self).commands().pending_views().len() > 0 ==> (r matches Some(f) && f@
                == crate::wire::wire_of(old(self).commands().pending_views()[0]) && final(self).commands().pending_views() == old(self).commands().pending_views().drop_first()
                && final(self).outbound().written() == old(self).outbound().written().push(f@)),
    {
        self.outbound.pump_once(&mut self.commands)
    }

    /// Routes one classified inbound frame.  A keepalive enqueues
    /// exactly one pong command; status frames and errors only ask for
    /// a report; a tick is buffered or, at capacity, held back; the
    /// transport's close moves the session to draining.
    pub fn on_frame(&mut self, f: ClassifiedFrame<T>) -> (act: StepAction)
        requires
            old(self).wf(),
            old(self).lifecycle() is Open || old(self).lifecycle() is Draining,
            !old(self).inbound().is_done(),
            !old(self).inbound().blocked(),
        ensures
            final(self).wf(),
            final(self).inbound().processed() == old(self).inbound().processed().push(f),
            final(self).inbound().delivered() == old(self).inbound().delivered(),
            final(self).inbound().capacity() == old(self).inbound().capacity(),
            act is SendPong <==> f is Keepalive,
            f is Keepalive ==> final(self).commands().history() == old(self).commands().history().push(CommandView::Pong) && final(self).inbound().buffered()
                == old(self).inbound().buffered() && final(self).lifecycle() == old(self).lifecycle(),
            !(f is Keepalive) ==> final(self).commands().history() == old(self).commands().history(),
            f matches ClassifiedFrame::Status(sm) ==> act == StepAction::ReportStatus(sm) && final(self).inbound().buffered() == old(self).inbound().buffered() && final(self).lifecycle()
                == old(self).lifecycle(),
            f is StatusMalformed ==> act is ReportStatusError && final(self).inbound().buffered()
                == old(self).inbound().buffered() && final(self).lifecycle() == old(self).lifecycle(),
            f matches ClassifiedFrame::Tick(t) ==> (if old(self).inbound().buffered().len() < old(self).inbound().capacity() {
                act is Forwarded && final(self).inbound().buffered() == old(self).inbound().buffered().push(t) && !final(self).inbound().blocked()
            } else {
                act is Suspended && final(self).inbound().buffered() == old(self).inbound().buffered() && final(self).inbound().pending_tick() == Some(t)
            }) && final(self).lifecycle() == old(self).lifecycle(),
            f is Malformed ==> act is ReportDecodeError && final(self).inbound().buffered() == old(self).inbound().buffered() && final(self).lifecycle() == old(self).lifecycle(),
            f is Unrecognized ==> act is ReportUnrecognized && final(self).inbound().buffered()
                == old(self).inbound().buffered() && final(self).lifecycle() == old(self).lifecycle(),
            f is ReadError ==> act is ReportReadError && final(self).inbound().buffered() == old(self).inbound().buffered() && final(self).lifecycle() == old(self).lifecycle(),
            f is Closed ==> act is Exit && final(self).inbound().is_done() && final(self).lifecycle() is Draining && final(self).inbound().buffered() == old(self).inbound().buffered(),
    {
        let is_keepalive = matches!(f, ClassifiedFrame::Keepalive);
        let act = self.inbound.step(f);
        if is_keepalive {
            let ghost pre = self.commands.history();
            self.commands.submit(Command::Pong);
            proof {
                assert(self.commands.history().drop_last() =~= pre);
                assert(count_pongs(self.commands.history()) == count_pongs(pre) + 1);
                assert(count_keepalives(self.inbound.processed()) == count_keepalives(
                    old(self).inbound.processed(),
                ) + 1) by {
                    assert(self.inbound.processed().drop_last() =~= old(self).inbound.processed());
                }
            }
            StepAction::SendPong
        } else {
            proof {
                assert(count_keepalives(self.inbound.processed()) == count_keepalives(
                    old(self).inbound.processed(),
                )) by {
                    assert(self.inbound.processed().drop_last() =~= old(self).inbound.processed());
                }
            }
            match act {
                StepAction::Exit => {
                    self.state = session_transition(self.state, SessionEvent::CloseObserved);
                    StepAction::Exit
                },
                other => other,
            }
        }
    }

    /// The consumer takes the oldest buffered tick; a suspended pump
    /// resumes with its pending tick once room is made.  After the
    /// stream has closed and drained, the end of the stream comes
    /// back.
    pub fn read_tick(&mut self) -> (r: ReadOutcome<T>)
        requires
            old(self).wf(),
        ensures
            final(self).wf(),
            final(self).lifecycle() == old(self).lifecycle(),
            final(self).commands() == old(self).commands(),
            final(self).inbound().processed() == old(self).inbound().processed(),
            old(self).inbound().buffered().len() == 0 && old(self).inbound().is_done() ==> r
                is EndOfStream && *final(self) == *old(self),
            old(self).inbound().buffered().len() == 0 && !old(self).inbound().is_done() ==> r
                is WouldBlock && *final(self) == *old(self),
            old(self).inbound().buffered().len() > 0 ==> (r matches ReadOutcome::Item(t)
                && t == old(self).inbound().buffered()[0]
                && final(self).inbound().delivered() == old(self).inbound().delivered().push(t)
                && !final(self).inbound().blocked()
                && (old(self).inbound().blocked() ==> final(self).inbound().buffered() == old(
                    self,
                ).inbound().buffered().drop_first().push(old(self).inbound().pending_tick()->0))
                && (!old(self).inbound().blocked() ==> final(self).inbound().buffered() == old(
                    self,
                ).inbound().buffered().drop_first())),
    {
        self.inbound.consumer_read()
    }

    /// Asks for shutdown: an open session starts draining; a session
    /// already past its open phase is left as it stands.
    pub fn close(&mut self)
        requires
            old(self).wf(),
        ensures
            final(self).wf(),
            final(self).lifecycle() == transition_spec(
                old(self).lifecycle(),
                SessionEvent::ShutdownRequested,
            ),
            final(self).commands() == old(self).commands(),
            final(self).inbound() == old(self).inbound(),
    {
        self.state = session_transition(self.state, SessionEvent::ShutdownRequested);
    }

    /// Records that both pump tasks have exited: a draining session is
    /// closed; any other session is left as it stands.
    pub fn finish(&mut self)
        requires
            old(self).wf(),
        ensures
            final(self).wf(),
            final(self).lifecycle() == transition_spec(
                old(self).lifecycle(),
                SessionEvent::PumpsExited,
            ),
            final(self).commands() == old(self).commands(),
            final(self).inbound() == old(self).inbound(),
    {
        self.state = session_transition(self.state, SessionEvent::PumpsExited);
    }
}

/// One pong is owed per keepalive: in every well-formed session, the
/// pong commands in the submission history and the keepalive probes
/// processed count the same.
pub proof fn lemma_pong_per_probe<T>(s: Session<T>)
    requires
        s.wf(),
    ensures
        count_pongs(s.commands().history()) == count_keepalives(s.inbound().processed()),
{
}

} // verus!
