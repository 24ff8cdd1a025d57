use ratatui::style::Color;
use ratatui::style::Style;
use ratatui::text::Line;
use tui_streaming::markdown_stream::AnimatedLineStreamer;
use tui_streaming::markdown_stream::MarkdownStreamCollector;
use tui_streaming::streaming::render_header_line;
use tui_streaming::streaming::HeaderEmitter;
use tui_streaming::streaming::HeaderLabel;
use tui_streaming::streaming::StreamState;

fn line(text: &'static str) -> Line<'static> {
    Line::from(text)
}

fn lines(texts: &[&'static str]) -> Vec<Line<'static>> {
    texts.iter().map(|text| line(text)).collect()
}

#[test]
fn new_state_is_empty() {
    let mut state = StreamState::new();
    assert!(state.is_idle());
    assert!(!state.has_seen_delta);
    assert_eq!(state.collector.buffered(), "");
    let result = state.step();
    assert!(result.lines.is_empty());
    assert!(!result.more);
}

#[test]
fn clear_is_idempotent_and_state_is_reusable() {
    let mut state = StreamState::new();
    state.enqueue(vec![line("L")]);
    state.clear();
    assert!(state.is_idle());
    state.enqueue(vec![line("L")]);
    let result = state.drain_all();
    assert_eq!(result.lines, vec![line("L")]);
    assert!(!result.more);
    assert!(state.is_idle());

    state.clear();
    state.clear();
    assert!(state.is_idle());
    assert!(state.drain_all().lines.is_empty());
}

#[test]
fn clear_resets_queue_buffer_and_flag() {
    let mut state = StreamState::new();
    state.has_seen_delta = true;
    state.collector.push_delta("half a li");
    state.enqueue(lines(&["a", "b", "c"]));
    assert!(!state.is_idle());

    state.clear();
    assert!(state.is_idle());
    assert!(!state.has_seen_delta);
    assert_eq!(state.collector.buffered(), "");
}

#[test]
fn step_after_clear_yields_nothing() {
    let mut state = StreamState::new();
    state.enqueue(lines(&["a", "b"]));
    state.clear();
    for _ in 0..3 {
        let result = state.step();
        assert!(result.lines.is_empty());
        assert!(!result.more);
        assert!(state.is_idle());
    }
    let result = state.drain_all();
    assert!(result.lines.is_empty());
    assert!(!result.more);
}

#[test]
fn step_releases_one_line_per_tick() {
    let mut state = StreamState::new();
    state.enqueue(lines(&["a", "b", "c"]));

    let first = state.step();
    assert_eq!(first.lines, vec![line("a")]);
    assert!(first.more);
    assert!(!state.is_idle());

    let second = state.step();
    assert_eq!(second.lines, vec![line("b")]);
    assert!(second.more);

    let third = state.step();
    assert_eq!(third.lines, vec![line("c")]);
    assert!(!third.more);
    assert!(state.is_idle());

    let fourth = state.step();
    assert!(fourth.lines.is_empty());
    assert!(!fourth.more);
}

#[test]
fn drain_all_releases_everything_in_order() {
    let mut state = StreamState::new();
    state.enqueue(lines(&["a", "b", "c", "d"]));
    let result = state.drain_all();
    assert_eq!(result.lines, lines(&["a", "b", "c", "d"]));
    assert!(!result.more);
    assert!(state.is_idle());
}

#[test]
fn batch_is_released_in_enqueue_order() {
    let batch = ["one", "two", "three", "four", "five"];
    let mut state = StreamState::new();
    state.enqueue(lines(&batch));

    let mut released = Vec::new();
    released.extend(state.step().lines);
    released.extend(state.step().lines);
    assert_eq!(released, lines(&batch[..2]));
    released.extend(state.drain_all().lines);
    assert_eq!(released, lines(&batch));
    released.extend(state.step().lines);
    assert_eq!(released, lines(&batch));
}

#[test]
fn later_batch_queues_behind_earlier_one() {
    let mut state = StreamState::new();
    state.enqueue(lines(&["a", "b"]));
    assert_eq!(state.step().lines, lines(&["a"]));
    state.enqueue(lines(&["c", "d"]));
    assert_eq!(state.drain_all().lines, lines(&["b", "c", "d"]));
}

#[test]
fn empty_batch_changes_nothing() {
    let mut state = StreamState::new();
    state.enqueue(Vec::new());
    assert!(state.is_idle());
    state.enqueue(lines(&["a"]));
    state.enqueue(Vec::new());
    assert_eq!(state.drain_all().lines, lines(&["a"]));
}

#[test]
fn equal_lines_are_all_kept() {
    let mut state = StreamState::new();
    state.enqueue(lines(&["same", "same", "same"]));
    assert_eq!(state.step().lines, lines(&["same"]));
    assert_eq!(state.drain_all().lines, lines(&["same", "same"]));
}

#[test]
fn styled_lines_pass_through_unchanged() {
    let styled = Line::styled("warn", Style::default().fg(Color::Red)).centered();
    let mut state = StreamState::new();
    state.enqueue(vec![styled.clone(), render_header_line(HeaderLabel::Thinking)]);
    assert_eq!(state.step().lines, vec![styled]);
    assert_eq!(state.step().lines, vec![render_header_line(HeaderLabel::Thinking)]);
}

#[test]
fn facade_does_not_touch_the_delta_flag() {
    let mut state = StreamState::new();
    state.has_seen_delta = true;
    state.enqueue(lines(&["a", "b"]));
    assert!(state.has_seen_delta);
    state.step();
    assert!(state.has_seen_delta);
    state.drain_all();
    assert!(state.has_seen_delta);
    assert!(state.is_idle());
    assert!(state.has_seen_delta);
}

#[test]
fn facade_does_not_touch_the_collector() {
    let mut state = StreamState::new();
    state.collector.push_delta("# Tit");
    state.collector.push_delta("le\n");
    state.enqueue(lines(&["a"]));
    state.step();
    state.drain_all();
    assert_eq!(state.collector.buffered(), "# Title\n");
}

#[test]
fn header_is_enqueued_before_content() {
    let mut emitter = HeaderEmitter::new();
    let mut state = StreamState::new();
    emitter.reset_for_new_turn();

    for content in [lines(&["first"]), lines(&["second", "third"])] {
        let mut batch = Vec::new();
        if emitter.maybe_emit_header() {
            batch.push(render_header_line(emitter.current_label()));
        }
        batch.extend(content);
        state.enqueue(batch);
    }

    let mut expected = vec![render_header_line(HeaderLabel::Codex)];
    expected.extend(lines(&["first", "second", "third"]));
    assert_eq!(state.drain_all().lines, expected);
}

#[test]
fn collector_buffers_deltas_in_order() {
    let mut collector = MarkdownStreamCollector::new();
    assert_eq!(collector.buffered(), "");
    collector.push_delta("Hel");
    collector.push_delta("");
    collector.push_delta("lo\nwor");
    assert_eq!(collector.buffered(), "Hello\nwor");
    collector.clear();
    assert_eq!(collector.buffered(), "");
    collector.push_delta("ld");
    assert_eq!(collector.buffered(), "ld");
}

#[test]
fn streamer_is_a_fifo_queue() {
    let mut streamer = AnimatedLineStreamer::new();
    assert!(streamer.is_idle());
    streamer.enqueue(lines(&["a", "b"]));
    streamer.enqueue(lines(&["c"]));
    assert!(!streamer.is_idle());

    let result = streamer.step();
    assert_eq!(result.lines, lines(&["a"]));
    assert!(result.more);

    let result = streamer.drain_all();
    assert_eq!(result.lines, lines(&["b", "c"]));
    assert!(!result.more);
    assert!(streamer.is_idle());

    streamer.enqueue(lines(&["d"]));
    streamer.clear();
    assert!(streamer.is_idle());
    assert!(streamer.step().lines.is_empty());
}
