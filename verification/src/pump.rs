//! The inbound pump: classification results are routed, ticks flow
//! into a bounded output queue, keepalives are answered, and the pump
//! exits when the transport closes.
//!
//! The pump suspends rather than drops when the consumer is slower
//! than the feed: a tick that finds the queue full waits as the
//! pending tick until the consumer makes room.

use vstd::prelude::*;

use crate::status::StatusMessage;

verus! {

/// One inbound frame after classification and, for ticks, decoding.
#[derive(Debug, Clone, PartialEq)]
pub enum ClassifiedFrame<T> {
    /// A protocol-level keepalive probe.
    Keepalive,
    /// A well-formed status notification.
    Status(StatusMessage),
    /// A frame with the status marker whose shape did not parse.
    StatusMalformed,
    /// A successfully decoded tick payload.
    Tick(T),
    /// A tick candidate whose payload did not decode.
    Malformed,
    /// A frame of a kind the protocol does not know.
    Unrecognized,
    /// A transient error on the read side.
    ReadError,
    /// The transport closed.
    Closed,
}

/// The ticks a run of classified frames delivers, in arrival order:
/// exactly the decoded payloads, everything else contributes nothing.
pub open spec fn decoded_ticks<T>(fs: Seq<ClassifiedFrame<T>>) -> Seq<T>
    decreases fs.len(),
{
    if fs.len() == 0 {
        Seq::empty()
    } else {
        match fs.last() {
            ClassifiedFrame::Tick(t) => decoded_ticks(fs.drop_last()).push(t),
            _ => decoded_ticks(fs.drop_last()),
        }
    }
}

/// How many keepalive probes a run of classified frames holds.
pub open spec fn count_keepalives<T>(fs: Seq<ClassifiedFrame<T>>) -> nat
    decreases fs.len(),
{
    if fs.len() == 0 {
        0
    } else {
        count_keepalives(fs.drop_last()) + (if fs.last() is Keepalive {
            1nat
        } else {
            0nat
        })
    }
}

/// What the inbound pump asks its surroundings to do after one frame.
#[derive(Debug, Clone, PartialEq)]
pub enum StepAction {
    /// Enqueue one pong command for the outbound pump.
    SendPong,
    /// Surface a status notification to the observability boundary.
    ReportStatus(StatusMessage),
    /// Report that a status frame did not parse: the upstream shape
    /// changed.
    ReportStatusError,
    /// The tick was placed on the output queue.
    Forwarded,
    /// The output queue is full: the tick waits, the pump suspends.
    Suspended,
    /// Report that a tick payload did not decode; the frame is
    /// dropped and the stream goes on.
    ReportDecodeError,
    /// Report a frame of an unknown kind.
    ReportUnrecognized,
    /// Report a transient read error.
    ReportReadError,
    /// The transport closed: the pump exits and the queue closes.
    Exit,
}

/// What a consumer's read of the tick queue yields.
#[derive(Debug, Clone, PartialEq)]
pub enum ReadOutcome<T> {
    /// The oldest buffered tick.
    Item(T),
    /// Nothing buffered yet, but the stream is still open.
    WouldBlock,
    /// The stream has ended: the queue is closed and empty.
    EndOfStream,
}

/// The inbound pump with its bounded tick-output queue.
pub struct InboundPump<T> {
    queue: Vec<T>,
    capacity: usize,
    pending: Option<T>,
    done: bool,
    processed: Ghost<Seq<ClassifiedFrame<T>>>,
    delivered: Ghost<Seq<T>>,
}

impl<T> InboundPump<T> {
    /// The ticks buffered for the consumer, oldest first.
    pub closed spec fn buffered(&self) -> Seq<T> {
        self.queue@
    }

    /// The queue's capacity.
    pub closed spec fn capacity(&self) -> nat {
        self.capacity as nat
    }

    /// The tick that waits for room, if the pump is suspended.
    pub closed spec fn pending_tick(&self) -> Option<T> {
        self.pending
    }

    /// Whether the pump is suspended on a full queue.
    pub open spec fn blocked(&self) -> bool {
        self.pending_tick() is Some
    }

    /// Whether the transport has closed and the pump has exited.
    pub closed spec fn is_done(&self) -> bool {
        self.done
    }

    /// Every frame the pump has processed, in arrival order.
    pub closed spec fn processed(&self) -> Seq<ClassifiedFrame<T>> {
        self.processed@
    }

    /// Every tick handed to the consumer, in delivery order.
    pub closed spec fn delivered(&self) -> Seq<T> {
        self.delivered@
    }

    /// The pending tick as a run of zero or one ticks.
    pub open spec fn pending_seq(&self) -> Seq<T> {
        match self.pending_tick() {
            Some(t) => seq![t],
            None => Seq::empty(),
        }
    }

    /// The pump's invariant.  Its heart: the ticks delivered, the
    /// ticks buffered and the tick pending are together exactly the
    /// decoded payloads of the frames processed, in arrival order —
    /// nothing reordered, nothing dropped, nothing invented.
    pub closed spec fn wf(&self) -> bool {
        &&& self.capacity >= 1
        &&& self.queue@.len() <= self.capacity
        &&& self.pending is Some ==> self.queue@.len() == self.capacity
        &&& self.delivered@ + self.queue@ + self.pending_seq() == decoded_ticks(self.processed@)
        &&& self.done ==> self.pending is None
        &&& self.done ==> self.processed@.len() > 0 && self.processed@.last() is Closed
        &&& forall|i: int|
            0 <= i < self.processed@.len() ==> ((#[trigger] self.processed@[i]) is Closed
                ==> self.done && i == self.processed@.len() - 1)
    }

    /// A fresh pump for a queue of the given capacity.
    pub fn new(capacity: usize) -> (p: InboundPump<T>)
        requires
            capacity >= 1,
        ensures
            p.wf(),
            p.capacity() == capacity,
            p.buffered() == Seq::<T>::empty(),
            p.delivered() == Seq::<T>::empty(),
            p.processed() == Seq::<ClassifiedFrame<T>>::empty(),
            !p.is_done(),
            !p.blocked(),
    {
        let p = InboundPump {
            queue: Vec::new(),
            capacity,
            pending: None,
            done: false,
            processed: Ghost(Seq::empty()),
            delivered: Ghost(Seq::empty()),
        };
        proof {
            assert(p.delivered@ + p.queue@ + p.pending_seq() =~= decoded_ticks(p.processed@));
        }
        p
    }

    /// Processes one classified frame.  A keepalive asks for exactly
    /// one pong and touches no queue; a status frame is surfaced and
    /// touches no queue; a decoded tick is buffered, or held pending
    /// when the queue is full; a malformed frame is reported and
    /// dropped; the close of the transport ends the pump.
    pub fn step(&mut self, f: ClassifiedFrame<T>) -> (act: StepAction)
        requires
            old(self).wf(),
            !old(self).is_done(),
            !old(self).blocked(),
        ensures
            final(self).wf(),
            final(self).capacity() == old(self).capacity(),
            final(self).processed() == old(self).processed().push(f),
            final(self).delivered() == old(self).delivered(),
            act is SendPong <==> f is Keepalive,
            f is Keepalive ==> final(self).buffered() == old(self).buffered() && !final(self).blocked() && !final(self).is_done(),
            f matches ClassifiedFrame::Status(sm) ==> act == StepAction::ReportStatus(sm) && final(self).buffered() == old(self).buffered() && !final(self).blocked() && !final(self).is_done(),
            f is StatusMalformed ==> act is ReportStatusError && final(self).buffered() == old(self).buffered() && !final(self).blocked() && !final(self).is_done(),
            f matches ClassifiedFrame::Tick(t) ==> (if old(self).buffered().len() < old(self).capacity() {
                act is Forwarded && final(self).buffered() == old(self).buffered().push(t)
                    && !final(self).blocked()
            } else {
                act is Suspended && final(self).buffered() == old(self).buffered() && final(self).pending_tick() == Some(t)
            }) && !final(self).is_done(),
            f is Malformed ==> act is ReportDecodeError && final(self).buffered() == old(self).buffered() && !final(self).blocked() && !final(self).is_done(),
            f is Unrecognized ==> act is ReportUnrecognized && final(self).buffered() == old(self).buffered() && !final(self).blocked() && !final(self).is_done(),
            f is ReadError ==> act is ReportReadError && final(self).buffered() == old(self).buffered() && !final(self).blocked() && !final(self).is_done(),
            f is Closed ==> act is Exit && final(self).is_done() && final(self).buffered() == old(self).buffered() && !final(self).blocked(),
    {
        let ghost prior = self.processed@;
        proof {
            self.processed@ = self.processed@.push(f);
            assert(self.processed@.drop_last() =~= prior);
            assert(self.processed@.last() == f);
        }
        match f {
            ClassifiedFrame::Keepalive => {
                proof {
                    assert(decoded_ticks(self.processed@) =~= decoded_ticks(prior));
                }
                StepAction::SendPong
            },
            ClassifiedFrame::Status(sm) => {
                proof {
                    assert(decoded_ticks(self.processed@) =~= decoded_ticks(prior));
                }
                StepAction::ReportStatus(sm)
            },
            ClassifiedFrame::StatusMalformed => {
                proof {
                    assert(decoded_ticks(self.processed@) =~= decoded_ticks(prior));
                }
                StepAction::ReportStatusError
            },
            ClassifiedFrame::Tick(t) => {
                proof {
                    assert(decoded_ticks(self.processed@) =~= decoded_ticks(prior).push(t));
                }
                if self.queue.len() < self.capacity {
                    self.queue.push(t);
                    proof {
                        assert(self.delivered@ + self.queue@ + self.pending_seq() =~= decoded_ticks(
                            self.processed@,
                        ));
                    }
                    StepAction::Forwarded
                } else {
                    self.pending = Some(t);
                    proof {
                        assert(self.delivered@ + self.queue@ + self.pending_seq() =~= decoded_ticks(
                            self.processed@,
                        ));
                    }
                    StepAction::Suspended
                }
            },
            ClassifiedFrame::Malformed => {
                proof {
                    assert(decoded_ticks(self.processed@) =~= decoded_ticks(prior));
                }
                StepAction::ReportDecodeError
            },
            ClassifiedFrame::Unrecognized => {
                proof {
                    assert(decoded_ticks(self.processed@) =~= decoded_ticks(prior));
                }
                StepAction::ReportUnrecognized
            },
            ClassifiedFrame::ReadError => {
                proof {
                    assert(decoded_ticks(self.processed@) =~= decoded_ticks(prior));
                }
                StepAction::ReportReadError
            },
            ClassifiedFrame::Closed => {
                self.done = true;
                proof {
                    assert(decoded_ticks(self.processed@) =~= decoded_ticks(prior));
                }
                StepAction::Exit
            },
        }
    }

    /// The consumer takes the oldest buffered tick.  When the pump
    /// was suspended, the pending tick moves into the room just made
    /// and the pump resumes; once the stream has closed and drained,
    /// the end of the stream is signalled.
    pub fn consumer_read(&mut self) -> (r: ReadOutcome<T>)
        requires
            old(self).wf(),
        ensures
            final(self).wf(),
            final(self).capacity() == old(self).capacity(),
            final(self).processed() == old(self).processed(),
            final(self).is_done() == old(self).is_done(),
            old(self).buffered().len() == 0 && old(self).is_done() ==> r is EndOfStream && *final(self) == *old(self),
            old(self).buffered().len() == 0 && !old(self).is_done() ==> r is WouldBlock && *final(self) == *old(self),
            old(self).buffered().len() > 0 ==> (r matches ReadOutcome::Item(t)
                && t == old(self).buffered()[0]
                && final(self).delivered() == old(self).delivered().push(t)
                && !final(self).blocked()
                && (old(self).blocked() ==> final(self).buffered() == old(self).buffered().drop_first().push(old(self).pending_tick()->0))
                && (!old(self).blocked() ==> final(self).buffered() == old(self).buffered().drop_first())),
    {
        if self.queue.len() == 0 {
            if self.done {
                ReadOutcome::EndOfStream
            } else {
                ReadOutcome::WouldBlock
            }
        } else {
            let t = self.queue.remove(0);
            self.delivered = Ghost(self.delivered@.push(t));
            match self.pending.take() {
                Some(p) => {
                    self.queue.push(p);
                    proof {
                        assert(self.delivered@ + self.queue@ + self.pending_seq() =~= decoded_ticks(
                            self.processed@,
                        ));
                    }
                },
                None => {
                    proof {
                        assert(self.delivered@ + self.queue@ + self.pending_seq() =~= decoded_ticks(
                            self.processed@,
                        ));
                    }
                },
            }
            ReadOutcome::Item(t)
        }
    }

    /// How many ticks are buffered right now.
    pub fn buffered_len(&self) -> (n: usize)
        ensures
            n == self.buffered().len(),
    {
        self.queue.len()
    }
}

/// The tick stream is intact: in every well-formed pump, the ticks
/// delivered to the consumer, the ticks buffered and the tick held
/// pending are together exactly the decoded payloads of the frames
/// processed, in their arrival order, and what the consumer has seen
/// is a prefix of that stream.
pub proof fn lemma_inbound_integrity<T>(p: InboundPump<T>)
    requires
        p.wf(),
    ensures
        p.delivered() + p.buffered() + p.pending_seq() == decoded_ticks(p.processed()),
        p.delivered() == decoded_ticks(p.processed()).take(p.delivered().len() as int),
        forall|i: int|
            0 <= i < p.delivered().len() ==> p.delivered()[i] == decoded_ticks(p.processed())[i],
{
    let all = decoded_ticks(p.processed());
    assert(p.delivered() =~= all.take(p.delivered().len() as int));
}

/// Backpressure never drops: the queue never holds more than its
/// capacity, and a suspended pump is suspended exactly because the
/// queue is full, with the overflowing tick kept, not lost.
pub proof fn lemma_backpressure_holds<T>(p: InboundPump<T>)
    requires
        p.wf(),
    ensures
        p.buffered().len() <= p.capacity(),
        p.blocked() ==> p.buffered().len() == p.capacity(),
        p.blocked() ==> p.delivered() + p.buffered() + seq![p.pending_tick()->0] == decoded_ticks(
            p.processed(),
        ),
{
}

/// A keepalive leaves no trace on the tick stream: a frame run with a
/// keepalive inserted decodes to the same ticks as the run without it.
pub proof fn lemma_keepalive_invisible<T>(
    fs1: Seq<ClassifiedFrame<T>>,
    fs2: Seq<ClassifiedFrame<T>>,
)
    ensures
        decoded_ticks(fs1 + seq![ClassifiedFrame::<T>::Keepalive] + fs2) == decoded_ticks(
            fs1 + fs2,
        ),
        count_keepalives(fs1 + seq![ClassifiedFrame::<T>::Keepalive] + fs2) == count_keepalives(
            fs1 + fs2,
        ) + 1,
    decreases fs2.len(),
{
    let ka = seq![ClassifiedFrame::<T>::Keepalive];
    if fs2.len() == 0 {
        assert(fs1 + ka + fs2 =~= fs1.push(ClassifiedFrame::<T>::Keepalive));
        assert(fs1 + fs2 =~= fs1);
        assert(fs1.push(ClassifiedFrame::<T>::Keepalive).drop_last() =~= fs1);
    } else {
        lemma_keepalive_invisible(fs1, fs2.drop_last());
        assert((fs1 + ka + fs2).drop_last() =~= fs1 + ka + fs2.drop_last());
        assert((fs1 + fs2).drop_last() =~= fs1 + fs2.drop_last());
        assert((fs1 + ka + fs2).last() == fs2.last());
        assert((fs1 + fs2).last() == fs2.last());
    }
}

/// Once the transport's close has been processed the stream is over:
/// the close stands at the end of the processed run and nowhere else,
/// nothing is pending, and the decoded ticks are exactly what was
/// delivered plus what still waits in the queue, with no further
/// elements to come.
pub proof fn lemma_closed_ends_stream<T>(p: InboundPump<T>)
    requires
        p.wf(),
        p.is_done(),
    ensures
        p.processed().len() > 0,
        p.processed().last() is Closed,
        forall|i: int|
            0 <= i < p.processed().len() - 1 ==> !((#[trigger] p.processed()[i]) is Closed),
        !p.blocked(),
        p.delivered() + p.buffered() == decoded_ticks(p.processed()),
{
    assert(p.delivered() + p.buffered() =~= p.delivered() + p.buffered() + p.pending_seq());
}

} // verus!
