//! The two parts of a stream session: the collector that buffers incoming
//! text and the streamer that releases finished lines at a steady pace.

use ratatui::text::Line;
use std::collections::VecDeque;
use vstd::prelude::*;
use vstd::string::StringExecFns;

verus! {

/// Buffers the text of a stream as it arrives, delta by delta.
pub struct MarkdownStreamCollector {
    buffer: String,
}

impl View for MarkdownStreamCollector {
    type V = Seq<char>;

    /// The text buffered so far.
    closed spec fn view(&self) -> Seq<char> {
        self.buffer@
    }
}

impl MarkdownStreamCollector {
    /// A collector with an empty buffer.
    pub fn new() -> (collector: Self)
        ensures
            collector@ == Seq::<char>::empty(),
    {
        Self { buffer: String::new() }
    }

    /// Drops everything buffered.
    pub fn clear(&mut self)
        ensures
            final(self)@ == Seq::<char>::empty(),
    {
        self.buffer = String::new();
    }

    /// Appends `delta` to the buffer.
    pub fn push_delta(&mut self, delta: &str)
        ensures
            final(self)@ == old(self)@ + delta@,
    {
        self.buffer.append(delta);
    }

    /// The text buffered so far.
    pub fn buffered(&self) -> (text: &str)
        ensures
            text@ == self@,
    {
        self.buffer.as_str()
    }
}

/// One way of asking a streamer for lines.
pub enum Tick {
    /// One beat of the animation clock: at most one line is released.
    Step,
    /// The stream is being finalized: everything queued is released at once.
    DrainAll,
}

/// The lines that `tick` releases from `queue`, oldest first.
pub open spec fn released_by(queue: Seq<Line<'static>>, tick: Tick) -> Seq<Line<'static>> {
    match tick {
        Tick::Step => if queue.len() == 0 {
            queue
        } else {
            queue.take(1)
        },
        Tick::DrainAll => queue,
    }
}

/// What `tick` leaves in `queue`.
pub open spec fn left_by(queue: Seq<Line<'static>>, tick: Tick) -> Seq<Line<'static>> {
    queue.skip(released_by(queue, tick).len() as int)
}

/// What a streamer hands to the renderer on one tick.
pub struct StepResult {
    /// The lines to draw, oldest first.
    pub lines: Vec<Line<'static>>,
    /// Whether lines are still queued, so that further ticks are needed.
    pub more: bool,
}

/// A first-in first-out queue of finished lines, released on a step clock.
pub struct AnimatedLineStreamer {
    queue: VecDeque<Line<'static>>,
}

impl View for AnimatedLineStreamer {
    type V = Seq<Line<'static>>;

    /// The queued lines, oldest first.
    closed spec fn view(&self) -> Seq<Line<'static>> {
        self.queue@
    }
}

impl AnimatedLineStreamer {
    /// A streamer with nothing queued.
    pub fn new() -> (streamer: Self)
        ensures
            streamer@ == Seq::<Line<'static>>::empty(),
    {
        Self { queue: VecDeque::new() }
    }

    /// Drops everything queued.
    pub fn clear(&mut self)
        ensures
            final(self)@ == Seq::<Line<'static>>::empty(),
    {
        self.queue.clear();
    }

    /// Appends `lines` to the queue, in their order.
    pub fn enqueue(&mut self, lines: Vec<Line<'static>>)
        ensures
            final(self)@ == old(self)@ + lines@,
    {
        let ghost before = self.queue@;
        let ghost batch = lines@;
        for line in it: lines
            invariant
                it.seq() == batch,
                self.queue@ == before + batch.take(it.index() as int),
        {
            self.queue.push_back(line);
        }
    }

    /// Releases the oldest queued line, if there is one.
    pub fn step(&mut self) -> (result: StepResult)
        ensures
            result.lines@ == released_by(old(self)@, Tick::Step),
            final(self)@ == left_by(old(self)@, Tick::Step),
            result.more == (final(self)@.len() > 0),
    {
        let mut lines: Vec<Line<'static>> = Vec::new();
        if let Some(line) = self.queue.pop_front() {
            lines.push(line);
        }
        let more = self.queue.len() > 0;
        StepResult { lines, more }
    }

    /// Releases everything queued, oldest first.
    pub fn drain_all(&mut self) -> (result: StepResult)
        ensures
            result.lines@ == released_by(old(self)@, Tick::DrainAll),
            final(self)@ == left_by(old(self)@, Tick::DrainAll),
            !result.more,
    {
        let ghost before = self.queue@;
        let mut lines: Vec<Line<'static>> = Vec::new();
        while self.queue.len() > 0
            invariant
                lines@ + self.queue@ == before,
            decreases self.queue@.len(),
        {
            if let Some(line) = self.queue.pop_front() {
                lines.push(line);
            }
        }
        StepResult { lines, more: false }
    }

    /// Whether nothing is queued.
    pub fn is_idle(&self) -> (idle: bool)
        ensures
            idle == (self@.len() == 0),
    {
        self.queue.len() == 0
    }
}

} // verus!
