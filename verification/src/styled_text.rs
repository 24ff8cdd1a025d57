//! The `ratatui` text types this crate hands to the renderer, and the few
//! `ratatui` calls it makes to build them.
//!
//! `Span` and `Line` are opaque to the verifier. What this crate needs to say
//! about them is said through [`span_view`] and [`line_spans`]; the contracts
//! of the functions below are assumed, not proved.

use ratatui::text::Line;
use ratatui::text::Span;
use vstd::prelude::*;

verus! {

/// `ratatui::text::Span`: a piece of text with one style. Opaque here.
#[verifier::external_type_specification]
#[verifier::external_body]
pub struct ExSpan<'a>(Span<'a>);

/// `ratatui::text::Line`: the spans of one terminal line. Opaque here.
#[verifier::external_type_specification]
#[verifier::external_body]
pub struct ExLine<'a>(Line<'a>);

/// Foreground colour of a span, as far as this crate distinguishes colours.
pub enum Foreground {
    /// The span's style sets no foreground (`style.fg` is `None`).
    Unset,
    /// `style.fg` is `Some(Color::Magenta)`.
    Magenta,
    /// Any other foreground colour.
    Other,
}

/// What a span shows: its text, its foreground colour, its weight and its slant.
pub struct SpanView {
    /// The characters of `content`.
    pub text: Seq<char>,
    /// The colour in `style.fg`.
    pub foreground: Foreground,
    /// Whether `style.add_modifier` contains `Modifier::BOLD`.
    pub bold: bool,
    /// Whether `style.add_modifier` contains `Modifier::ITALIC`.
    pub italic: bool,
}

/// The text and styling held by a `ratatui::text::Span`.
pub uninterp spec fn span_view(span: Span<'static>) -> SpanView;

/// The spans held by a `ratatui::text::Line`, left to right, each by its view.
pub uninterp spec fn line_spans(line: Line<'static>) -> Seq<SpanView>;

/// `Stylize::magenta` on a string slice.
///
/// Assumed: the span borrows `text` as its content and carries a default
/// style whose foreground was set to magenta, so no modifier is added.
#[verifier::external_body]
pub(crate) fn magenta(text: &'static str) -> (span: Span<'static>)
    ensures
        span_view(span) == (SpanView {
            text: text@,
            foreground: Foreground::Magenta,
            bold: false,
            italic: false,
        }),
{
    ratatui::style::Stylize::magenta(text)
}

/// `Stylize::bold` on a span.
///
/// Assumed: the span comes back with `Modifier::BOLD` added to its style and
/// with its content, colours and other added modifiers untouched.
#[verifier::external_body]
pub(crate) fn bold(span: Span<'static>) -> (styled: Span<'static>)
    ensures
        span_view(styled) == (SpanView { bold: true, ..span_view(span) }),
{
    ratatui::style::Stylize::bold(span)
}

/// `Stylize::italic` on a span.
///
/// Assumed: the span comes back with `Modifier::ITALIC` added to its style and
/// with its content, colours and other added modifiers untouched.
#[verifier::external_body]
pub(crate) fn italic(span: Span<'static>) -> (styled: Span<'static>)
    ensures
        span_view(styled) == (SpanView { italic: true, ..span_view(span) }),
{
    ratatui::style::Stylize::italic(span)
}

/// `Line::from` on a single span.
///
/// Assumed: the line holds exactly that span.
#[verifier::external_body]
pub(crate) fn line_from_span(span: Span<'static>) -> (line: Line<'static>)
    ensures
        line_spans(line) == seq![span_view(span)],
{
    Line::from(span)
}

} // verus!
