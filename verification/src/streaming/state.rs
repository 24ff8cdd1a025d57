//! The state of one stream session.
//!
//! [`StreamState`] binds a collector and a streamer together and remembers
//! whether the stream has produced anything yet. [`StreamView`] is its
//! mathematical model; the lemmas at the end of this file say what a cleared
//! stream releases (nothing) and in which order queued lines come out (the
//! order in which they went in).

use crate::markdown_stream::left_by;
use crate::markdown_stream::released_by;
use crate::markdown_stream::AnimatedLineStreamer;
use crate::markdown_stream::MarkdownStreamCollector;
use crate::markdown_stream::StepResult;
use crate::markdown_stream::Tick;
use ratatui::text::Line;
use vstd::prelude::*;

verus! {

/// Model of a [`StreamState`].
pub struct StreamView {
    /// The text the collector has buffered.
    pub buffer: Seq<char>,
    /// The lines the streamer has queued, oldest first.
    pub queue: Seq<Line<'static>>,
    /// Whether a delta has been seen in this session.
    pub has_seen_delta: bool,
}

impl StreamView {
    /// The state of a new session: nothing buffered, nothing queued, no
    /// delta seen.
    pub open spec fn fresh() -> Self {
        StreamView { buffer: Seq::empty(), queue: Seq::empty(), has_seen_delta: false }
    }

    /// Whether nothing is queued.
    pub open spec fn is_idle(self) -> bool {
        self.queue.len() == 0
    }

    /// The state after `lines` joined the queue.
    pub open spec fn enqueue(self, lines: Seq<Line<'static>>) -> Self {
        StreamView { queue: self.queue + lines, ..self }
    }

    /// The state that `tick` leaves behind: only the queue changes.
    pub open spec fn after(self, tick: Tick) -> Self {
        StreamView { queue: left_by(self.queue, tick), ..self }
    }

    /// Whether lines are still queued once `tick` is done.
    pub open spec fn more_after(self, tick: Tick) -> bool {
        !self.after(tick).is_idle()
    }

    /// The state after the ticks `ticks`, taken from left to right.
    pub open spec fn run(self, ticks: Seq<Tick>) -> Self
        decreases ticks.len(),
    {
        if ticks.len() == 0 {
            self
        } else {
            self.after(ticks[0]).run(ticks.drop_first())
        }
    }

    /// All lines that the ticks `ticks` release, in the order of release.
    pub open spec fn released(self, ticks: Seq<Tick>) -> Seq<Line<'static>>
        decreases ticks.len(),
    {
        if ticks.len() == 0 {
            Seq::empty()
        } else {
            released_by(self.queue, ticks[0]) + self.after(ticks[0]).released(ticks.drop_first())
        }
    }
}

/// Everything that belongs to one stream session.
pub struct StreamState {
    pub collector: MarkdownStreamCollector,
    pub streamer: AnimatedLineStreamer,
    /// Set by the owner when the first delta of the session arrives.
    pub has_seen_delta: bool,
}

impl View for StreamState {
    type V = StreamView;

    open spec fn view(&self) -> StreamView {
        StreamView {
            buffer: self.collector@,
            queue: self.streamer@,
            has_seen_delta: self.has_seen_delta,
        }
    }
}

impl StreamState {
    /// A new session: nothing buffered, nothing queued, no delta seen.
    pub fn new() -> (state: Self)
        ensures
            state@ == StreamView::fresh(),
    {
        Self {
            collector: MarkdownStreamCollector::new(),
            streamer: AnimatedLineStreamer::new(),
            has_seen_delta: false,
        }
    }

    /// Ends the session and makes the state ready for the next one: it is
    /// then the state of a new session.
    pub fn clear(&mut self)
        ensures
            final(self)@ == StreamView::fresh(),
    {
        self.collector.clear();
        self.streamer.clear();
        self.has_seen_delta = false;
    }

    /// Advances the animation by one tick and hands over what it released.
    pub fn step(&mut self) -> (result: StepResult)
        ensures
            result.lines@ == released_by(old(self)@.queue, Tick::Step),
            result.more == old(self)@.more_after(Tick::Step),
            final(self)@ == old(self)@.after(Tick::Step),
    {
        self.streamer.step()
    }

    /// Hands over everything still queued, as if the animation had run to
    /// its end.
    pub fn drain_all(&mut self) -> (result: StepResult)
        ensures
            result.lines@ == old(self)@.queue,
            !result.more,
            final(self)@ == old(self)@.after(Tick::DrainAll),
            final(self)@.is_idle(),
    {
        self.streamer.drain_all()
    }

    /// Whether the streamer has nothing left to release.
    pub fn is_idle(&self) -> (idle: bool)
        ensures
            idle == self@.is_idle(),
    {
        self.streamer.is_idle()
    }

    /// Queues `lines` for release, behind what is already queued.
    pub fn enqueue(&mut self, lines: Vec<Line<'static>>)
        ensures
            final(self)@ == old(self)@.enqueue(lines@),
    {
        self.streamer.enqueue(lines)
    }
}

/// An idle stream stays idle whatever ticks follow: each of them releases
/// nothing, reports that nothing more is pending and leaves the state as it
/// is.
pub proof fn lemma_idle_stream_releases_nothing(s: StreamView, ticks: Seq<Tick>)
    requires
        s.is_idle(),
    ensures
        forall|tick: Tick|
            #![trigger s.after(tick)]
            released_by(s.queue, tick).len() == 0 && !s.more_after(tick) && s.after(tick) == s,
        s.released(ticks).len() == 0,
        s.run(ticks) == s,
    decreases ticks.len(),
{
    assert forall|tick: Tick|
        #![trigger s.after(tick)]
        released_by(s.queue, tick).len() == 0 && !s.more_after(tick) && s.after(tick) == s by {
        assert(left_by(s.queue, tick) =~= s.queue);
    }
    if ticks.len() > 0 {
        assert(s.after(ticks[0]) == s);
        lemma_idle_stream_releases_nothing(s, ticks.drop_first());
    }
}

/// After `clear` the stream is idle, and as long as nothing is enqueued every
/// tick yields an empty result that reports nothing more pending: `tick` does
/// so after any `earlier` ticks.
pub proof fn lemma_cleared_stream_releases_nothing(earlier: Seq<Tick>, tick: Tick)
    ensures
        StreamView::fresh().is_idle(),
        released_by(StreamView::fresh().run(earlier).queue, tick).len() == 0,
        !StreamView::fresh().run(earlier).more_after(tick),
        StreamView::fresh().run(earlier).after(tick) == StreamView::fresh(),
{
    let cleared = StreamView::fresh();
    lemma_idle_stream_releases_nothing(cleared, earlier);
    assert(cleared.after(tick) == cleared);
}

/// Ticks neither lose, repeat nor reorder lines: what they released, followed
/// by what is still queued, is the queue as it was before them.
pub proof fn lemma_release_keeps_order(s: StreamView, ticks: Seq<Tick>)
    ensures
        s.released(ticks) + s.run(ticks).queue == s.queue,
    decreases ticks.len(),
{
    if ticks.len() > 0 {
        let first = released_by(s.queue, ticks[0]);
        let next = s.after(ticks[0]);
        let rest = ticks.drop_first();
        lemma_release_keeps_order(next, rest);
        assert(first + next.queue =~= s.queue);
        assert(s.released(ticks) + s.run(ticks).queue =~= first + (next.released(rest) + next.run(
            rest,
        ).queue));
    } else {
        assert(s.released(ticks) + s.run(ticks).queue =~= s.queue);
    }
}

/// A queue is empty after `drain_all`, and after at least as many ticks as it
/// held lines.
pub proof fn lemma_enough_ticks_empty_the_queue(s: StreamView, ticks: Seq<Tick>)
    requires
        ticks.contains(Tick::DrainAll) || ticks.len() >= s.queue.len(),
    ensures
        s.run(ticks).is_idle(),
    decreases ticks.len(),
{
    if ticks.len() > 0 {
        let next = s.after(ticks[0]);
        let rest = ticks.drop_first();
        if next.is_idle() {
            lemma_idle_stream_releases_nothing(next, rest);
        } else {
            assert(ticks[0] == Tick::Step);
            if ticks.contains(Tick::DrainAll) {
                let i = choose|i: int| 0 <= i < ticks.len() && ticks[i] == Tick::DrainAll;
                assert(rest[i - 1] == Tick::DrainAll);
            }
            lemma_enough_ticks_empty_the_queue(next, rest);
        }
    }
}

/// Enqueue a batch on an idle stream and enqueue nothing else. Then the lines
/// released by the ticks that follow are the first lines of the batch, in
/// its order, and they are the whole batch once `drain_all` was among the
/// ticks or there were as many ticks as lines.
pub proof fn lemma_batch_is_released_in_order(
    s: StreamView,
    batch: Seq<Line<'static>>,
    ticks: Seq<Tick>,
)
    requires
        s.is_idle(),
    ensures
        s.enqueue(batch).released(ticks).is_prefix_of(batch),
        ticks.contains(Tick::DrainAll) || ticks.len() >= batch.len() ==> s.enqueue(batch).released(
            ticks,
        ) == batch,
{
    let queued = s.enqueue(batch);
    assert(queued.queue =~= batch);
    lemma_release_keeps_order(queued, ticks);
    let released = queued.released(ticks);
    let left = queued.run(ticks).queue;
    assert(released.is_prefix_of(batch)) by {
        assert(batch.subrange(0, released.len() as int) =~= released);
    }
    if ticks.contains(Tick::DrainAll) || ticks.len() >= batch.len() {
        lemma_enough_ticks_empty_the_queue(queued, ticks);
        assert(released =~= released + left);
    }
}

} // verus!
