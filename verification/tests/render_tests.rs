use ratatui::buffer::Buffer;
use ratatui::layout::Rect;
use tui_form::{widget::field_views, FieldRenderType, Form, FormSelection};

fn empty_form3() -> Form<tui_form::NonEmpty> {
    Form::from_names(vec![
        "Account".to_string(),
        "Username".to_string(),
        "Password".to_string(),
    ])
}

#[test]
fn active_field_beats_invalid() {
    // All buffers empty and submitted, so every field fails validation; the
    // active field must still resolve to Active, not Invalid.
    let mut form = empty_form3();
    form.submit();
    form.select(FormSelection::Active(1));
    let views = field_views(&form);
    assert_eq!(views.len(), 3);
    assert_eq!(views[0].class, FieldRenderType::Invalid);
    assert_eq!(views[1].class, FieldRenderType::Active);
    assert_eq!(views[2].class, FieldRenderType::Invalid);
}

#[test]
fn hovered_field_beats_invalid() {
    let mut form = empty_form3();
    form.submit();
    form.select(FormSelection::Hovered(0));
    let views = field_views(&form);
    assert_eq!(views[0].class, FieldRenderType::Hovered);
    assert_eq!(views[1].class, FieldRenderType::Invalid);
}

#[test]
fn unsubmitted_fields_render_normal() {
    let form = empty_form3();
    let views = field_views(&form);
    assert!(views.iter().all(|v| v.class == FieldRenderType::Normal));
}

#[test]
fn views_carry_names_and_values() {
    let mut form = Form::from_pairs(vec![
        ("Account".to_string(), "alice".to_string()),
        ("Password".to_string(), "secret".to_string()),
    ]);
    form.select(FormSelection::Hovered(1));
    let views = field_views(&form);
    assert_eq!(views[0].name, "Account");
    assert_eq!(views[0].value, "alice");
    assert_eq!(views[0].class, FieldRenderType::Normal);
    assert_eq!(views[1].name, "Password");
    assert_eq!(views[1].value, "secret");
    assert_eq!(views[1].class, FieldRenderType::Hovered);
}

fn buffer_text(buf: &Buffer) -> String {
    let mut out = String::new();
    for y in 0..buf.area.height {
        for x in 0..buf.area.width {
            if let Some(cell) = buf.cell((x, y)) {
                out.push_str(cell.symbol());
            }
        }
        out.push('\n');
    }
    out
}

#[test]
fn render_draws_labels_and_contents() {
    let mut form = Form::from_pairs(vec![
        ("Account".to_string(), "alice".to_string()),
        ("Password".to_string(), String::new()),
    ]);
    form.select(FormSelection::Active(0));
    let area = Rect::new(0, 0, 30, 12);
    let mut buf = Buffer::empty(area);
    form.widget().render(area, &mut buf);
    let text = buffer_text(&buf);
    assert!(text.contains("Account"));
    assert!(text.contains("alice"));
    assert!(text.contains("Password"));
    // The bordered blocks reach the buffer too.
    assert!(text.contains("╭"));
}

#[test]
fn render_of_an_empty_form_only_draws_the_frame() {
    let form = Form::from_names(Vec::new());
    let area = Rect::new(0, 0, 10, 4);
    let mut buf = Buffer::empty(area);
    form.widget().render(area, &mut buf);
    let text = buffer_text(&buf);
    assert!(text.contains("Form"));
}
