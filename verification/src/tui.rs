//! Trusted bindings to the `ratatui` rendering collaborator.
//!
//! Everything the library needs from the host rendering crate passes through
//! this module: opaque declarations of the rendering types and thin wrappers
//! around the drawing and layout calls. Styles, colors, rectangles and the
//! screen buffer are carried through the verified code as opaque values; the
//! verified logic decides *what* to draw and these wrappers perform the
//! drawing itself.

use ratatui::widgets::Widget;
use vstd::prelude::*;

verus! {

/// `ratatui`'s rectangular drawing area, opaque to the verified code.
#[verifier::external_type_specification]
#[verifier::external_body]
pub struct ExRect(ratatui::layout::Rect);

/// `ratatui`'s screen buffer, opaque to the verified code: the draw calls
/// below write into it.
#[verifier::external_type_specification]
#[verifier::external_body]
pub struct ExBuffer(ratatui::buffer::Buffer);

/// `ratatui`'s visual-style value, opaque to the verified code: the form
/// stores four of them and hands them back to the draw calls unchanged.
#[verifier::external_type_specification]
#[verifier::external_body]
pub struct ExStyle(ratatui::style::Style);

/// `ratatui`'s color value, opaque to the verified code.
#[verifier::external_type_specification]
#[verifier::external_body]
pub struct ExColor(ratatui::style::Color);

/// Relies on `ratatui::style::Style::new`: the undecorated style.
#[verifier::external_body]
pub(crate) fn style_new() -> ratatui::style::Style {
    ratatui::style::Style::new()
}

/// Relies on `ratatui::style::Style::fg`: the same style with the given
/// foreground color.
#[verifier::external_body]
pub(crate) fn style_fg(s: ratatui::style::Style, c: ratatui::style::Color) -> ratatui::style::Style {
    s.fg(c)
}

/// Relies on `ratatui::style::Style::add_modifier` with `Modifier::BOLD`.
#[verifier::external_body]
pub(crate) fn style_bold(s: ratatui::style::Style) -> ratatui::style::Style {
    s.add_modifier(ratatui::style::Modifier::BOLD)
}

/// Relies on `ratatui::style::Color::Red`.
#[verifier::external_body]
pub(crate) fn color_red() -> ratatui::style::Color {
    ratatui::style::Color::Red
}

/// Relies on `ratatui::style::Color::Cyan`.
#[verifier::external_body]
pub(crate) fn color_cyan() -> ratatui::style::Color {
    ratatui::style::Color::Cyan
}

/// Relies on `ratatui::layout::Layout::split`: a vertical split of `area`
/// with one maximum-height constraint per entry of `heights` yields exactly
/// one sub-rectangle per constraint, stacked in order.
#[verifier::external_body]
pub(crate) fn split_rows(area: &ratatui::layout::Rect, heights: &Vec<u16>) -> (r: Vec<
    ratatui::layout::Rect,
>)
    ensures
        r@.len() == heights@.len(),
{
    let constraints: Vec<ratatui::layout::Constraint> = heights.iter().map(
        |h| ratatui::layout::Constraint::Max(*h),
    ).collect();
    ratatui::layout::Layout::default().direction(ratatui::layout::Direction::Vertical).constraints(
        constraints,
    ).split(*area).to_vec()
}

/// Relies on `ratatui::widgets::Block`: draws a titled, borderless block
/// over `area` into `buf`.
#[verifier::external_body]
pub(crate) fn draw_titled_block(area: &ratatui::layout::Rect, buf: &mut ratatui::buffer::Buffer, title: &str) {
    ratatui::widgets::Block::new().title(title).render(*area, buf);
}

/// Relies on `ratatui::widgets::Paragraph`: draws a bordered, titled
/// single-line text block with no decoration.
#[verifier::external_body]
pub(crate) fn draw_field_normal(
    area: &ratatui::layout::Rect,
    buf: &mut ratatui::buffer::Buffer,
    content: &str,
    title: &str,
) {
    ratatui::widgets::Paragraph::new(content).block(
        ratatui::widgets::Block::default().borders(ratatui::widgets::Borders::ALL).border_type(
            ratatui::widgets::BorderType::Rounded,
        ).title(title),
    ).render(*area, buf);
}

/// Relies on `ratatui::widgets::Paragraph`: draws a bordered, titled
/// single-line text block whose border carries the given style and whose
/// title stays undecorated.
#[verifier::external_body]
pub(crate) fn draw_field_hovered(
    area: &ratatui::layout::Rect,
    buf: &mut ratatui::buffer::Buffer,
    content: &str,
    title: &str,
    border_style: &ratatui::style::Style,
) {
    ratatui::widgets::Paragraph::new(content).block(
        ratatui::widgets::Block::default().borders(ratatui::widgets::Borders::ALL).border_style(
            *border_style,
        ).border_type(ratatui::widgets::BorderType::Rounded).title(title),
    ).render(*area, buf);
}

/// Relies on `ratatui::widgets::Paragraph`: draws a bordered, titled
/// single-line text block whose border and title carry the given style, the
/// body followed by a reversed-video single-space glyph standing for a text
/// cursor at the end of the buffer.
#[verifier::external_body]
pub(crate) fn draw_field_active(
    area: &ratatui::layout::Rect,
    buf: &mut ratatui::buffer::Buffer,
    content: &str,
    title: &str,
    style: &ratatui::style::Style,
) {
    let cursor = ratatui::style::Style::new().add_modifier(ratatui::style::Modifier::REVERSED);
    let line = ratatui::text::Line::from(
        vec![ratatui::text::Span::raw(content), ratatui::text::Span::styled(" ", cursor)],
    );
    ratatui::widgets::Paragraph::new(line).block(
        ratatui::widgets::Block::default().borders(ratatui::widgets::Borders::ALL).border_style(
            *style,
        ).border_type(ratatui::widgets::BorderType::Rounded).title_style(*style).title(title),
    ).render(*area, buf);
}

/// Relies on `ratatui::widgets::Paragraph`: draws a bordered, titled
/// single-line text block whose border and title carry the given style.
#[verifier::external_body]
pub(crate) fn draw_field_invalid(
    area: &ratatui::layout::Rect,
    buf: &mut ratatui::buffer::Buffer,
    content: &str,
    title: &str,
    style: &ratatui::style::Style,
) {
    ratatui::widgets::Paragraph::new(content).block(
        ratatui::widgets::Block::default().borders(ratatui::widgets::Borders::ALL).border_style(
            *style,
        ).border_type(ratatui::widgets::BorderType::Rounded).title_style(*style).title(title),
    ).render(*area, buf);
}

} // verus!
