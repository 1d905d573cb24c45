//! Frame delivery: negotiated geometry, per-frame decisions, and the bounded
//! display queue.

use vstd::prelude::*;
use crate::codec::VideoAlgorithm;

verus! {

/// The size of decoded frames, as negotiated.
#[derive(PartialEq, Eq, Structural, Clone, Copy, Debug)]
pub struct FrameGeometry {
    pub width: i32,
    pub height: i32,
}

/// Why a frame was not delivered. Both are transient: the stream goes on.
#[derive(PartialEq, Eq, Structural, Clone, Copy, Debug)]
pub enum FlowError {
    /// A frame came before its geometry was known.
    Flushing,
    /// The buffer is smaller than the negotiated geometry needs.
    ShortBuffer,
}

/// What to do with one frame: read `width` x `height` packed RGB pixels from
/// its buffer and, if `enhance`, apply the configured enhancement.
#[derive(PartialEq, Eq, Structural, Clone, Copy, Debug)]
pub struct FramePlan {
    pub width: i32,
    pub height: i32,
    pub enhance: bool,
}

/// The receiving end of a running graph.
#[derive(Debug)]
pub struct FrameSink {
    geometry: Option<FrameGeometry>,
    algorithm: Option<VideoAlgorithm>,
}

/// Bytes in one packed RGB frame.
pub open spec fn frame_bytes(g: FrameGeometry) -> int {
    g.width * g.height * 3
}

impl FrameSink {
    pub closed spec fn geometry(&self) -> Option<FrameGeometry> {
        self.geometry
    }

    pub closed spec fn algorithm(&self) -> Option<VideoAlgorithm> {
        self.algorithm
    }

    /// A sink for a graph that has negotiated nothing yet.
    pub fn new(algorithm: Option<VideoAlgorithm>) -> (r: FrameSink)
        ensures
            r.geometry() is None,
            r.algorithm() == algorithm,
    {
        FrameSink { geometry: None, algorithm }
    }

    pub fn get_geometry(&self) -> (r: Option<FrameGeometry>)
        ensures
            r == self.geometry(),
    {
        self.geometry
    }

    /// A format-negotiation event: where it gives both a width and a height,
    /// they become the geometry; otherwise nothing changes.
    pub fn on_caps(&mut self, width: Option<i32>, height: Option<i32>)
        ensures
            final(self).algorithm() == old(self).algorithm(),
            width is Some && height is Some ==> final(self).geometry() == Some(
                FrameGeometry { width: width->Some_0, height: height->Some_0 },
            ),
            !(width is Some && height is Some) ==> final(self).geometry() == old(self).geometry(),
    {
        match (width, height) {
            (Some(w), Some(h)) => {
                self.geometry = Some(FrameGeometry { width: w, height: h });
            },
            _ => {},
        }
    }

    /// The graph stopped: its geometry no longer holds.
    pub fn reset(&mut self)
        ensures
            final(self).geometry() is None,
            final(self).algorithm() == old(self).algorithm(),
    {
        self.geometry = None;
    }

    /// Decides on a frame whose buffer holds `buffer_len` bytes.
    pub fn on_frame(&self, buffer_len: usize) -> (r: Result<FramePlan, FlowError>)
        ensures
            self.geometry() is None ==> r == Err::<FramePlan, FlowError>(FlowError::Flushing),
            self.geometry() matches Some(g) ==> {
                &&& (g.width < 0 || g.height < 0 || buffer_len < frame_bytes(g)) ==> r == Err::<FramePlan, FlowError>(FlowError::ShortBuffer)
                &&& (g.width >= 0 && g.height >= 0 && buffer_len >= frame_bytes(g)) ==> r == Ok::<FramePlan, FlowError>(
                    FramePlan { width: g.width, height: g.height, enhance: self.algorithm() is Some },
                )
            },
    {
        let g = match self.geometry {
            Some(g) => g,
            None => {
                return Err(FlowError::Flushing);
            },
        };
        if g.width < 0 || g.height < 0 {
            return Err(FlowError::ShortBuffer);
        }
        let w = g.width as u64;
        let h = g.height as u64;
        assert(w * h <= 0x7fff_ffff * 0x7fff_ffff) by (nonlinear_arith)
            requires w <= 0x7fff_ffff, h <= 0x7fff_ffff;
        let need: u64 = w * h * 3;
        if (buffer_len as u64) < need {
            return Err(FlowError::ShortBuffer);
        }
        Ok(FramePlan { width: g.width, height: g.height, enhance: self.algorithm.is_some() })
    }
}

/// The display queue: a bounded buffer of frame numbers. Where `leaky`, a
/// frame that arrives at a full queue pushes the oldest one out; otherwise it
/// is refused and the producer waits.
pub struct FrameQueue {
    frames: Vec<u64>,
    capacity: usize,
    leaky: bool,
    accepted: Ghost<Seq<u64>>,
}

impl FrameQueue {
    /// The frames held, oldest first.
    pub closed spec fn frames(&self) -> Seq<u64> {
        self.frames@
    }

    /// Every frame the queue ever accepted, in order.
    pub closed spec fn accepted(&self) -> Seq<u64> {
        self.accepted@
    }

    pub closed spec fn capacity(&self) -> nat {
        self.capacity as nat
    }

    pub closed spec fn leaky(&self) -> bool {
        self.leaky
    }

    /// The frames held are the newest ones accepted, in order, and no more than
    /// the queue's capacity.
    pub open spec fn wf(&self) -> bool {
        &&& self.capacity() > 0
        &&& self.frames().len() <= self.capacity()
        &&& self.frames().len() <= self.accepted().len()
        &&& self.frames() == self.accepted().subrange(
            self.accepted().len() - self.frames().len(),
            self.accepted().len() as int,
        )
    }

    pub fn new(capacity: usize, leaky: bool) -> (r: FrameQueue)
        requires
            capacity > 0,
        ensures
            r.wf(),
            r.frames().len() == 0,
            r.accepted().len() == 0,
            r.capacity() == capacity,
            r.leaky() == leaky,
    {
        let r = FrameQueue { frames: Vec::new(), capacity, leaky, accepted: Ghost(Seq::empty()) };
        assert(r.frames() =~= r.accepted().subrange(0, 0));
        r
    }

    pub fn len(&self) -> (r: usize)
        ensures
            r == self.frames().len(),
    {
        self.frames.len()
    }

    /// Offers a frame. It is accepted unless the queue is full and not leaky;
    /// a leaky queue that is full drops its oldest frame to make room.
    pub fn push(&mut self, frame: u64) -> (accepted: bool)
        requires
            old(self).wf(),
        ensures
            final(self).wf(),
            final(self).capacity() == old(self).capacity(),
            final(self).leaky() == old(self).leaky(),
            accepted == (old(self).leaky() || old(self).frames().len() < old(self).capacity()),
            accepted ==> final(self).accepted() == old(self).accepted().push(frame),
            accepted && old(self).frames().len() < old(self).capacity() ==> final(self).frames() == old(
                self,
            ).frames().push(frame),
            accepted && old(self).frames().len() == old(self).capacity() ==> final(self).frames() == old(
                self,
            ).frames().drop_first().push(frame),
            !accepted ==> final(self).frames() == old(self).frames() && final(self).accepted() == old(
                self,
            ).accepted(),
    {
        let ghost a = self.accepted@;
        let ghost f = self.frames@;
        if self.frames.len() < self.capacity {
            self.frames.push(frame);
            self.accepted = Ghost(a.push(frame));
            assert(self.frames@ =~= a.push(frame).subrange(a.len() + 1 - self.frames@.len(), (a.len() + 1) as int));
            true
        } else if self.leaky {
            self.frames.remove(0);
            self.frames.push(frame);
            self.accepted = Ghost(a.push(frame));
            assert(self.frames@ =~= f.drop_first().push(frame));
            assert(self.frames@ =~= a.push(frame).subrange(a.len() + 1 - self.frames@.len(), (a.len() + 1) as int));
            true
        } else {
            false
        }
    }

    /// Hands the oldest frame held to the consumer. It is one of the newest
    /// `capacity` frames accepted.
    pub fn pop(&mut self) -> (r: Option<u64>)
        requires
            old(self).wf(),
        ensures
            final(self).wf(),
            final(self).capacity() == old(self).capacity(),
            final(self).leaky() == old(self).leaky(),
            final(self).accepted() == old(self).accepted(),
            old(self).frames().len() == 0 ==> r is None && final(self).frames() == old(self).frames(),
            old(self).frames().len() > 0 ==> {
                let k = old(self).accepted().len() - old(self).frames().len();
                &&& r == Some(old(self).accepted()[k])
                &&& k >= old(self).accepted().len() - old(self).capacity()
                &&& final(self).frames() == old(self).frames().drop_first()
            },
    {
        if self.frames.len() == 0 {
            None
        } else {
            let x = self.frames.remove(0);
            let ghost a = self.accepted@;
            assert(self.frames@ =~= a.subrange(a.len() - self.frames@.len(), a.len() as int));
            Some(x)
        }
    }
}

/// On a leaky queue no frame is ever refused, and what the consumer takes is
/// never more than `capacity - 1` frames behind the newest one produced: with
/// one slot, always the newest.
pub proof fn lemma_leaky_consumer_sees_recent(q: &FrameQueue)
    requires
        q.wf(),
        q.leaky(),
        q.frames().len() > 0,
    ensures
        q.accepted().len() - (q.accepted().len() - q.frames().len()) <= q.capacity(),
        q.frames()[0] == q.accepted()[q.accepted().len() - q.frames().len()],
        q.capacity() == 1 ==> q.frames()[0] == q.accepted().last(),
{
}

} // verus!
