//! The command queue between the callers and the outbound pump.
//!
//! Many callers submit; one pump consumes.  The queue keeps the
//! submission order, and the pump writes each command's frame in the
//! order the commands were taken, so the wire sees the exact
//! submission order.

use vstd::prelude::*;

use crate::wire::{encode_command, wire_of, Command, CommandView, OutFrame, OutFrameView};

verus! {

/// The views of a run of commands.
pub open spec fn command_views(s: Seq<Command>) -> Seq<CommandView> {
    s.map_values(|c: Command| c@)
}

/// The views of a run of frames.
pub open spec fn frame_views(s: Seq<OutFrame>) -> Seq<OutFrameView> {
    s.map_values(|f: OutFrame| f@)
}

/// The frames that a run of commands puts on the wire, in order.
pub open spec fn wires_of(s: Seq<CommandView>) -> Seq<OutFrameView> {
    s.map_values(|c: CommandView| wire_of(c))
}

/// The command queue: submissions enter at the back, the outbound pump
/// takes from the front.  The ghost history records every command ever
/// submitted, the ghost taken run those already handed to the pump.
pub struct CommandQueue {
    pending: Vec<Command>,
    history: Ghost<Seq<CommandView>>,
    taken: Ghost<Seq<CommandView>>,
}

impl CommandQueue {
    /// The commands still waiting, in order.
    pub closed spec fn pending_views(&self) -> Seq<CommandView> {
        command_views(self.pending@)
    }

    /// Every command ever submitted, in submission order.
    pub closed spec fn history(&self) -> Seq<CommandView> {
        self.history@
    }

    /// The commands already handed to the outbound pump, in order.
    pub closed spec fn taken(&self) -> Seq<CommandView> {
        self.taken@
    }

    /// The queue's invariant: what was submitted is what was taken
    /// followed by what still waits.
    pub closed spec fn wf(&self) -> bool {
        self.history@ == self.taken@ + command_views(self.pending@)
    }

    /// An empty queue.
    pub fn new() -> (q: CommandQueue)
        ensures
            q.wf(),
            q.history() == Seq::<CommandView>::empty(),
            q.taken() == Seq::<CommandView>::empty(),
            q.pending_views() == Seq::<CommandView>::empty(),
    {
        let q = CommandQueue {
            pending: Vec::new(),
            history: Ghost(Seq::empty()),
            taken: Ghost(Seq::empty()),
        };
        proof {
            assert(command_views(q.pending@) =~= Seq::<CommandView>::empty());
            assert(q.history@ =~= q.taken@ + command_views(q.pending@));
        }
        q
    }

    /// Submits one command: it takes its place at the back of the
    /// queue, after everything submitted before it.
    pub fn submit(&mut self, c: Command)
        requires
            old(self).wf(),
        ensures
            final(self).wf(),
            final(self).history() == old(self).history().push(c@),
            final(self).taken() == old(self).taken(),
            final(self).pending_views() == old(self).pending_views().push(c@),
    {
        let ghost cv = c@;
        self.history = Ghost(self.history@.push(cv));
        self.pending.push(c);
        proof {
            assert(command_views(self.pending@) =~= command_views(old(self).pending@).push(cv));
            assert(self.history@ =~= self.taken@ + command_views(self.pending@));
        }
    }

    /// Hands the front command to the outbound pump, if one waits.
    pub fn take_next(&mut self) -> (r: Option<Command>)
        requires
            old(self).wf(),
        ensures
            final(self).wf(),
            final(self).history() == old(self).history(),
            old(self).pending_views().len() == 0 ==> r is None && *final(self) == *old(self),
            old(self).pending_views().len() > 0 ==> (r matches Some(c)
                && c@ == old(self).pending_views()[0]
                && final(self).taken() == old(self).taken().push(c@)
                && final(self).pending_views() == old(self).pending_views().drop_first()),
    {
        if self.pending.len() == 0 {
            proof {
                assert(command_views(self.pending@) =~= Seq::<CommandView>::empty());
            }
            None
        } else {
            let c = self.pending.remove(0);
            let ghost cv = c@;
            self.taken = Ghost(self.taken@.push(cv));
            proof {
                assert(command_views(self.pending@) =~= command_views(
                    old(self).pending@,
                ).drop_first());
                assert(cv == command_views(old(self).pending@)[0]);
                assert(self.history@ =~= self.taken@ + command_views(self.pending@));
            }
            Some(c)
        }
    }

    /// How many commands still wait.
    pub fn len(&self) -> (n: usize)
        ensures
            n == self.pending_views().len(),
    {
        self.pending.len()
    }
}

/// The outbound pump's record: the frames written to the transport's
/// write side, in writing order.
pub struct OutboundPump {
    written: Ghost<Seq<OutFrameView>>,
}

impl OutboundPump {
    /// The frames written so far, in order.
    pub closed spec fn written(&self) -> Seq<OutFrameView> {
        self.written@
    }

    /// The pump has written exactly the frames of the commands taken
    /// off the queue, in the order they were taken.
    pub open spec fn matches(self, q: CommandQueue) -> bool {
        self.written() == wires_of(q.taken())
    }

    /// A pump that has written nothing, for a fresh queue.
    pub fn new() -> (p: OutboundPump)
        ensures
            p.written() == Seq::<OutFrameView>::empty(),
            forall|q: CommandQueue| q.taken() == Seq::<CommandView>::empty() ==> p.matches(q),
    {
        let p = OutboundPump { written: Ghost(Seq::empty()) };
        proof {
            assert forall|q: CommandQueue|
                q.taken() == Seq::<CommandView>::empty() implies p.matches(q) by {
                assert(wires_of(q.taken()) =~= Seq::<OutFrameView>::empty());
            }
        }
        p
    }

    /// One turn of the pump: take the next command, translate it, and
    /// hand back the frame for the transport.  Nothing comes back when
    /// the queue is empty.
    pub fn pump_once(&mut self, q: &mut CommandQueue) -> (r: Option<OutFrame>)
        requires
            old(q).wf(),
            old(self).matches(*old(q)),
        ensures
            final(q).wf(),
            final(self).matches(*final(q)),
            final(q).history() == old(q).history(),
            old(q).pending_views().len() == 0 ==> r is None && *final(q) == *old(q) && *final(self)
                == *old(self),
            old(q).pending_views().len() > 0 ==> (r matches Some(f) && f@ == wire_of(
                old(q).pending_views()[0],
            ) && final(self).written() == old(self).written().push(f@) && final(q).pending_views()
                == old(q).pending_views().drop_first()),
    {
        match q.take_next() {
            None => None,
            Some(c) => {
                let f = encode_command(&c);
                self.written = Ghost(self.written@.push(f@));
                proof {
                    assert(wires_of(q.taken()) =~= wires_of(old(q).taken()).push(wire_of(c@)));
                }
                Some(f)
            },
        }
    }

    /// Runs the pump until the queue is empty: every waiting command's
    /// frame is written, in submission order.
    pub fn drain(&mut self, q: &mut CommandQueue) -> (frames: Vec<OutFrame>)
        requires
            old(q).wf(),
            old(self).matches(*old(q)),
        ensures
            final(q).wf(),
            final(self).matches(*final(q)),
            final(q).history() == old(q).history(),
            final(q).pending_views().len() == 0,
            frame_views(frames@) == wires_of(old(q).pending_views()),
            final(self).written() == old(self).written() + frame_views(frames@),
    {
        let ghost start = old(q).pending_views();
        let mut frames: Vec<OutFrame> = Vec::new();
        proof {
            assert(frame_views(frames@) =~= Seq::<OutFrameView>::empty());
        }
        loop
            invariant
                q.wf(),
                self.matches(*q),
                q.history() == old(q).history(),
                frames@.len() <= start.len(),
                q.pending_views() == start.skip(frames@.len() as int),
                frame_views(frames@) == wires_of(start.take(frames@.len() as int)),
                self.written() == old(self).written() + frame_views(frames@),
            ensures
                q.wf(),
                self.matches(*q),
                q.history() == old(q).history(),
                q.pending_views().len() == 0,
                frame_views(frames@) == wires_of(start),
                self.written() == old(self).written() + frame_views(frames@),
            decreases q.pending_views().len(),
        {
            let ghost k = frames@.len() as int;
            match self.pump_once(q) {
                None => {
                    proof {
                        assert(start.skip(k) =~= Seq::<CommandView>::empty());
                        assert(start.take(k) =~= start);
                    }
                    break ;
                },
                Some(f) => {
                    let ghost fv = f@;
                    frames.push(f);
                    proof {
                        assert(frame_views(frames@) =~= frame_views(frames@.drop_last()).push(fv));
                        assert(start.skip(k)[0] == start[k]);
                        assert(start.skip(k).drop_first() =~= start.skip(k + 1));
                        assert(wires_of(start.take(k + 1)) =~= wires_of(start.take(k)).push(
                            wire_of(start[k]),
                        ));
                    }
                },
            }
        }
        frames
    }
}

/// Commands reach the wire in the exact order of their submission:
/// the commands taken so far are the first of the history, and the
/// frames written are those commands' frames, one each, in order.
pub proof fn lemma_outbound_fifo(p: OutboundPump, q: CommandQueue)
    requires
        q.wf(),
        p.matches(q),
    ensures
        q.history() == q.taken() + q.pending_views(),
        q.taken() == q.history().take(q.taken().len() as int),
        p.written() == wires_of(q.history().take(q.taken().len() as int)),
        p.written().len() == q.taken().len(),
        forall|i: int| 0 <= i < q.taken().len() ==> p.written()[i] == wire_of(#[trigger] q.history()[i]),
{
    assert(q.taken() =~= q.history().take(q.taken().len() as int));
    assert forall|i: int| 0 <= i < q.taken().len() implies p.written()[i] == wire_of(
        #[trigger] q.history()[i],
    ) by {
        assert(q.history()[i] == q.taken()[i]);
        assert(p.written()[i] == wires_of(q.taken())[i]);
    }
}

} // verus!
