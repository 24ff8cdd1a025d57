//! Section headers: which kinds exist, how each is drawn, and the latch that
//! decides when one is due.
//!
//! A header introduces a stream. It must not repeat within a stream, and not
//! within a turn either, unless the previous stream of that turn was
//! finalized. [`HeaderEmitter`] keeps one flag per scope; [`HeaderState`] is
//! its mathematical model, and the lemmas at the end of this file bound how
//! often a header can be emitted.

use crate::styled_text::bold;
use crate::styled_text::italic;
use crate::styled_text::line_from_span;
use crate::styled_text::line_spans;
use crate::styled_text::magenta;
use crate::styled_text::Foreground;
use crate::styled_text::SpanView;
use ratatui::text::Line;
use vstd::prelude::*;

verus! {

/// The kind of stream a header introduces.
#[derive(Copy, Clone, Debug, PartialEq, Eq, Structural)]
pub enum HeaderLabel {
    Codex,
    Thinking,
}

impl HeaderLabel {
    /// The word shown in the header.
    pub open spec fn text(self) -> Seq<char> {
        match self {
            HeaderLabel::Codex => "codex"@,
            HeaderLabel::Thinking => "thinking"@,
        }
    }

    /// The header's single span: the label's word in magenta, bold for
    /// `Codex` and italic for `Thinking`.
    pub open spec fn span(self) -> SpanView {
        SpanView {
            text: self.text(),
            foreground: Foreground::Magenta,
            bold: self == HeaderLabel::Codex,
            italic: self == HeaderLabel::Thinking,
        }
    }
}

/// Draws the header line for `label`: one span, determined by the label alone.
pub fn render_header_line(label: HeaderLabel) -> (line: Line<'static>)
    ensures
        line_spans(line) == seq![label.span()],
{
    match label {
        HeaderLabel::Codex => line_from_span(bold(magenta("codex"))),
        HeaderLabel::Thinking => line_from_span(italic(magenta("thinking"))),
    }
}

/// Each label has a word and a styling of its own.
pub proof fn lemma_labels_are_drawn_differently(a: HeaderLabel, b: HeaderLabel)
    requires
        a != b,
    ensures
        a.text() != b.text(),
        a.span().bold != b.span().bold,
        a.span().italic != b.span().italic,
{
    reveal_strlit("codex");
    reveal_strlit("thinking");
    assert("codex"@.len() != "thinking"@.len());
}

/// The operations of a [`HeaderEmitter`] that act on its flags.
pub enum HeaderOp {
    ResetForNewTurn,
    ResetForStream,
    AllowReemitInTurn,
    MaybeEmitHeader,
}

/// Model of a [`HeaderEmitter`]: one flag per scope, and the label.
pub struct HeaderState {
    /// A header was emitted in the current turn and not released since.
    pub emitted_this_turn: bool,
    /// A header was emitted in the current stream.
    pub emitted_in_stream: bool,
    pub label: HeaderLabel,
}

impl HeaderState {
    /// The state of a new emitter: nothing emitted in either scope.
    pub open spec fn initial(label: HeaderLabel) -> Self {
        HeaderState { emitted_this_turn: false, emitted_in_stream: false, label }
    }

    /// Whether `op`, applied in this state, reports an emission: only
    /// `MaybeEmitHeader` can, and only while both flags are clear.
    pub open spec fn emits(self, op: HeaderOp) -> bool {
        op == HeaderOp::MaybeEmitHeader && !self.emitted_in_stream && !self.emitted_this_turn
    }

    /// The state that `op` leaves behind.
    pub open spec fn after(self, op: HeaderOp) -> Self {
        match op {
            HeaderOp::ResetForNewTurn => HeaderState {
                emitted_this_turn: false,
                emitted_in_stream: false,
                ..self
            },
            HeaderOp::ResetForStream => HeaderState { emitted_in_stream: false, ..self },
            HeaderOp::AllowReemitInTurn => HeaderState { emitted_this_turn: false, ..self },
            HeaderOp::MaybeEmitHeader => if self.emits(op) {
                HeaderState { emitted_this_turn: true, emitted_in_stream: true, ..self }
            } else {
                self
            },
        }
    }

    /// The state after applying `ops` from left to right.
    pub open spec fn run(self, ops: Seq<HeaderOp>) -> Self
        decreases ops.len(),
    {
        if ops.len() == 0 {
            self
        } else {
            self.after(ops[0]).run(ops.drop_first())
        }
    }

    /// How many operations of `ops`, applied from left to right, report an
    /// emission.
    pub open spec fn emissions(self, ops: Seq<HeaderOp>) -> nat
        decreases ops.len(),
    {
        if ops.len() == 0 {
            0
        } else {
            (if self.emits(ops[0]) { 1nat } else { 0nat })
                + self.after(ops[0]).emissions(ops.drop_first())
        }
    }

    /// How many of the operations `ops[from..to]` report an emission when the
    /// whole of `ops` is applied from this state.
    pub open spec fn emissions_between(self, ops: Seq<HeaderOp>, from: int, to: int) -> nat {
        self.run(ops.take(from)).emissions(ops.subrange(from, to))
    }
}

/// How often `op` occurs in `ops`.
pub open spec fn occurrences(ops: Seq<HeaderOp>, op: HeaderOp) -> nat
    decreases ops.len(),
{
    if ops.len() == 0 {
        0
    } else {
        (if ops[0] == op { 1nat } else { 0nat }) + occurrences(ops.drop_first(), op)
    }
}

/// Decides whether a header line is due at the head of the next batch.
#[derive(Debug, PartialEq, Eq)]
pub struct HeaderEmitter {
    emitted_this_turn: bool,
    emitted_in_stream: bool,
    label: HeaderLabel,
}

impl View for HeaderEmitter {
    type V = HeaderState;

    closed spec fn view(&self) -> HeaderState {
        HeaderState {
            emitted_this_turn: self.emitted_this_turn,
            emitted_in_stream: self.emitted_in_stream,
            label: self.label,
        }
    }
}

impl HeaderEmitter {
    /// An emitter for `Codex` headers that has emitted nothing yet.
    pub fn new() -> (emitter: Self)
        ensures
            emitter@ == HeaderState::initial(HeaderLabel::Codex),
    {
        Self::with_label(HeaderLabel::Codex)
    }

    /// An emitter for `label` headers that has emitted nothing yet.
    pub fn with_label(label: HeaderLabel) -> (emitter: Self)
        ensures
            emitter@ == HeaderState::initial(label),
    {
        Self { emitted_this_turn: false, emitted_in_stream: false, label }
    }

    /// A new turn begins: both scopes start over.
    pub fn reset_for_new_turn(&mut self)
        ensures
            final(self)@ == old(self)@.after(HeaderOp::ResetForNewTurn),
    {
        self.emitted_this_turn = false;
        self.emitted_in_stream = false;
    }

    /// A new stream begins inside the current turn. The turn flag stays, so
    /// a turn that already showed its header shows none for this stream.
    pub fn reset_for_stream(&mut self)
        ensures
            final(self)@ == old(self)@.after(HeaderOp::ResetForStream),
    {
        self.emitted_in_stream = false;
    }

    /// Allow emitting the header again within the current turn after a finalize.
    pub fn allow_reemit_in_turn(&mut self)
        ensures
            final(self)@ == old(self)@.after(HeaderOp::AllowReemitInTurn),
    {
        self.emitted_this_turn = false;
    }

    /// Tests whether a header is due, which it is while both flags are
    /// clear, and if so records it in both scopes. A `false` answer leaves
    /// the emitter exactly as it was.
    pub fn maybe_emit_header(&mut self) -> (emitted: bool)
        ensures
            emitted == old(self)@.emits(HeaderOp::MaybeEmitHeader),
            final(self)@ == old(self)@.after(HeaderOp::MaybeEmitHeader),
            emitted ==> final(self)@.emitted_in_stream && final(self)@.emitted_this_turn,
            !emitted ==> *final(self) == *old(self),
    {
        if !self.emitted_in_stream && !self.emitted_this_turn {
            self.emitted_in_stream = true;
            self.emitted_this_turn = true;
            true
        } else {
            false
        }
    }

    /// Return the configured label for this emitter (e.g., Codex or Thinking).
    pub fn current_label(&self) -> (label: HeaderLabel)
        ensures
            label == self@.label,
    {
        self.label
    }
}

/// Within one turn, a header is emitted at most once more than
/// `allow_reemit_in_turn` is called; if the turn has already emitted, at most
/// as often.
pub proof fn lemma_turn_emissions(s: HeaderState, ops: Seq<HeaderOp>)
    requires
        !ops.contains(HeaderOp::ResetForNewTurn),
    ensures
        s.emissions(ops) <= 1 + occurrences(ops, HeaderOp::AllowReemitInTurn),
        s.emitted_this_turn ==> s.emissions(ops) <= occurrences(ops, HeaderOp::AllowReemitInTurn),
    decreases ops.len(),
{
    if ops.len() > 0 {
        let rest = ops.drop_first();
        assert forall|i: int| 0 <= i < rest.len() implies rest[i] != HeaderOp::ResetForNewTurn by {
            assert(rest[i] == ops[i + 1]);
        }
        assert(ops[0] != HeaderOp::ResetForNewTurn);
        lemma_turn_emissions(s.after(ops[0]), rest);
    }
}

/// Within one stream of one turn, a header is emitted at most once, and not
/// at all if the stream has already emitted. This holds whether or not
/// `allow_reemit_in_turn` is called.
pub proof fn lemma_stream_emissions(s: HeaderState, ops: Seq<HeaderOp>)
    requires
        !ops.contains(HeaderOp::ResetForNewTurn),
        !ops.contains(HeaderOp::ResetForStream),
    ensures
        s.emissions(ops) <= 1,
        s.emitted_in_stream ==> s.emissions(ops) == 0,
    decreases ops.len(),
{
    if ops.len() > 0 {
        let rest = ops.drop_first();
        assert forall|i: int| 0 <= i < rest.len() implies rest[i] != HeaderOp::ResetForNewTurn
            && rest[i] != HeaderOp::ResetForStream by {
            assert(rest[i] == ops[i + 1]);
        }
        assert(ops[0] != HeaderOp::ResetForNewTurn && ops[0] != HeaderOp::ResetForStream);
        lemma_stream_emissions(s.after(ops[0]), rest);
    }
}

/// Run any operations on a new emitter. Between two consecutive calls of
/// `reset_for_new_turn`, at positions `first` and `next`, `maybe_emit_header`
/// returns `true` at most `1 + k` times, where `k` counts the calls of
/// `allow_reemit_in_turn` in between.
pub proof fn lemma_emissions_between_turn_resets(
    label: HeaderLabel,
    ops: Seq<HeaderOp>,
    first: int,
    next: int,
)
    requires
        0 <= first < next < ops.len(),
        ops[first] == HeaderOp::ResetForNewTurn,
        ops[next] == HeaderOp::ResetForNewTurn,
        forall|i: int| first < i < next ==> ops[i] != HeaderOp::ResetForNewTurn,
    ensures
        HeaderState::initial(label).emissions_between(ops, first + 1, next) <= 1 + occurrences(
            ops.subrange(first + 1, next),
            HeaderOp::AllowReemitInTurn,
        ),
{
    let turn = ops.subrange(first + 1, next);
    assert forall|i: int| 0 <= i < turn.len() implies turn[i] != HeaderOp::ResetForNewTurn by {
        assert(turn[i] == ops[first + 1 + i]);
    }
    lemma_turn_emissions(HeaderState::initial(label).run(ops.take(first + 1)), turn);
}

/// Run any operations but `allow_reemit_in_turn` on a new emitter. Between
/// two consecutive calls of `reset_for_new_turn`, at positions `first` and
/// `next`, `maybe_emit_header` returns `true` at most once.
pub proof fn lemma_one_emission_per_turn(
    label: HeaderLabel,
    ops: Seq<HeaderOp>,
    first: int,
    next: int,
)
    requires
        !ops.contains(HeaderOp::AllowReemitInTurn),
        0 <= first < next < ops.len(),
        ops[first] == HeaderOp::ResetForNewTurn,
        ops[next] == HeaderOp::ResetForNewTurn,
        forall|i: int| first < i < next ==> ops[i] != HeaderOp::ResetForNewTurn,
    ensures
        HeaderState::initial(label).emissions_between(ops, first + 1, next) <= 1,
{
    let turn = ops.subrange(first + 1, next);
    assert forall|i: int| 0 <= i < turn.len() implies turn[i] != HeaderOp::AllowReemitInTurn by {
        assert(turn[i] == ops[first + 1 + i]);
    }
    lemma_no_occurrence(turn, HeaderOp::AllowReemitInTurn);
    lemma_emissions_between_turn_resets(label, ops, first, next);
}

/// Run any operations on a new emitter. Between two consecutive calls of
/// `reset_for_stream` in one turn, at positions `first` and `next`,
/// `maybe_emit_header` returns `true` at most once.
pub proof fn lemma_one_emission_per_stream(
    label: HeaderLabel,
    ops: Seq<HeaderOp>,
    first: int,
    next: int,
)
    requires
        0 <= first < next < ops.len(),
        ops[first] == HeaderOp::ResetForStream,
        ops[next] == HeaderOp::ResetForStream,
        forall|i: int|
            first < i < next ==> ops[i] != HeaderOp::ResetForStream && ops[i]
                != HeaderOp::ResetForNewTurn,
    ensures
        HeaderState::initial(label).emissions_between(ops, first + 1, next) <= 1,
{
    let stream = ops.subrange(first + 1, next);
    assert forall|i: int| 0 <= i < stream.len() implies stream[i] != HeaderOp::ResetForStream
        && stream[i] != HeaderOp::ResetForNewTurn by {
        assert(stream[i] == ops[first + 1 + i]);
    }
    lemma_stream_emissions(HeaderState::initial(label).run(ops.take(first + 1)), stream);
}

/// An operation that does not occur is counted zero times.
proof fn lemma_no_occurrence(ops: Seq<HeaderOp>, op: HeaderOp)
    requires
        !ops.contains(op),
    ensures
        occurrences(ops, op) == 0,
    decreases ops.len(),
{
    if ops.len() > 0 {
        let rest = ops.drop_first();
        assert forall|i: int| 0 <= i < rest.len() implies rest[i] != op by {
            assert(rest[i] == ops[i + 1]);
        }
        assert(ops[0] != op);
        lemma_no_occurrence(rest, op);
    }
}

} // verus!
