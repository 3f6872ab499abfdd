//! The render-state projection: the per-field visual class and its
//! resolution rules.

use vstd::prelude::*;

use crate::form::{Form, FormSelection, Validator};
use crate::tui::{
    draw_field_active, draw_field_hovered, draw_field_invalid, draw_field_normal,
    draw_titled_block, split_rows,
};

verus! {

/// The visual class of one field, derived at render time from the current
/// selection, the submission flag and the field's validity; never stored.
#[derive(Clone, Copy, PartialEq, Eq, Debug)]
pub enum FieldRenderType {
    /// Default border and title, no decoration.
    Normal,
    /// The form was submitted and this field's buffer failed validation.
    Invalid,
    /// This field is hovered.
    Hovered,
    /// This field is receiving keystrokes.
    Active,
}

/// The visual class of field `i`, as a strict tie-break: active beats
/// hovered beats invalid beats normal.
pub open spec fn spec_render_type(
    sel: FormSelection,
    i: usize,
    submitted: bool,
    valid: bool,
) -> FieldRenderType {
    if sel == FormSelection::Active(i) {
        FieldRenderType::Active
    } else if sel == FormSelection::Hovered(i) {
        FieldRenderType::Hovered
    } else if submitted && !valid {
        FieldRenderType::Invalid
    } else {
        FieldRenderType::Normal
    }
}

/// Tie-break law: a field that is both the active field and invalid on a
/// submitted form resolves to `Active`, never `Invalid`.
pub proof fn lemma_active_beats_invalid(sel: FormSelection, i: usize, submitted: bool, valid: bool)
    requires
        sel == FormSelection::Active(i),
    ensures
        spec_render_type(sel, i, submitted, valid) == FieldRenderType::Active,
{
}

/// Resolve the visual class of field `i` under the given selection,
/// submission flag and validity.
pub fn render_type_of(sel: &FormSelection, i: usize, submitted: bool, valid: bool) -> (r:
    FieldRenderType)
    ensures
        r == spec_render_type(*sel, i, submitted, valid),
{
    let hovered = match sel {
        FormSelection::Hovered(f) => *f == i,
        _ => false,
    };
    let active = match sel {
        FormSelection::Active(f) => *f == i,
        _ => false,
    };
    let is_invalid = submitted && !valid;
    match (hovered, active, is_invalid) {
        (_, true, _) => FieldRenderType::Active,
        (true, false, _) => FieldRenderType::Hovered,
        (false, false, true) => FieldRenderType::Invalid,
        (false, false, false) => FieldRenderType::Normal,
    }
}

/// One field's visual descriptor: its label, its buffer contents and the
/// visual class it resolves to under the current form state.
#[derive(Debug)]
pub struct FieldView {
    /// The field's label, drawn as the block title.
    pub name: String,
    /// The field's buffer contents, drawn as the block body.
    pub value: String,
    /// The resolved visual class.
    pub class: FieldRenderType,
}

/// The pure projection from a form to its per-field visual descriptors:
/// one descriptor per field, in display order, whose class follows the
/// active-beats-hovered-beats-invalid tie-break against the current
/// selection, submission flag and validity.
pub fn field_views<V: Validator>(form: &Form<V>) -> (r: Vec<FieldView>)
    ensures
        r@.len() == form.field_count(),
        forall|i: int| 0 <= i < r@.len() ==> #[trigger] r@[i].name@ == form.names()[i],
        forall|i: int| 0 <= i < r@.len() ==> #[trigger] r@[i].value@ == form.values()[i],
        forall|i: int|
            0 <= i < r@.len() ==> #[trigger] r@[i].class == spec_render_type(
                form.selection(),
                i as usize,
                form.is_submitted(),
                form.spec_validator().spec_valid(form.values()[i]),
            ),
{
    let fields = form.status();
    let mut out: Vec<FieldView> = Vec::new();
    let mut k: usize = 0;
    while k < fields.len()
        invariant
            fields@.len() == form.field_count(),
            forall|j: int|
                0 <= j < fields@.len() ==> #[trigger] fields@[j]@ == form.spec_status()[j],
            k <= fields@.len(),
            out@.len() == k,
            forall|j: int| 0 <= j < k ==> #[trigger] out@[j].name@ == form.names()[j],
            forall|j: int| 0 <= j < k ==> #[trigger] out@[j].value@ == form.values()[j],
            forall|j: int|
                0 <= j < k ==> #[trigger] out@[j].class == spec_render_type(
                    form.selection(),
                    j as usize,
                    form.is_submitted(),
                    form.spec_validator().spec_valid(form.values()[j]),
                ),
        decreases fields@.len() - k,
    {
        let f = &fields[k];
        let class = render_type_of(form.selected(), k, form.get_submitted(), f.is_valid());
        out.push(FieldView { name: f.name().to_owned(), value: f.value().to_owned(), class });
        k += 1;
    }
    out
}

/// A transient, read-only view over a form that draws it onto a screen
/// buffer; it lives only for the render pass.
pub struct Renderer<'a, V: Validator> {
    form: &'a Form<V>,
}

impl<'a, V: Validator> Renderer<'a, V> {
    /// The form this renderer draws.
    pub closed spec fn spec_form(self) -> Form<V> {
        *self.form
    }

    /// Borrow a form for one render pass.
    pub fn new(form: &'a Form<V>) -> (r: Renderer<'a, V>)
        ensures
            r.spec_form() == *form,
    {
        Renderer { form }
    }

    /// Draw the form into `buf`: a titled frame, then the vertical extent of
    /// `area` partitioned into one fixed-height slot per field plus a
    /// trailing filler slot, each field dispatched to the draw routine of
    /// its resolved visual class.
    pub fn render(self, area: ratatui::layout::Rect, buf: &mut ratatui::buffer::Buffer) {
        draw_titled_block(&area, buf, "Form");
        let views = field_views(self.form);
        let n = views.len();
        let mut heights: Vec<u16> = Vec::new();
        let mut k: usize = 0;
        while k < n
            invariant
                heights@.len() == k,
                k <= n,
            decreases n - k,
        {
            heights.push(3);
            k += 1;
        }
        heights.push(1);
        let areas = split_rows(&area, &heights);
        let mut i: usize = 0;
        while i < n
            invariant
                areas@.len() == n + 1,
                views@.len() == n,
                i <= n,
            decreases n - i,
        {
            let v = &views[i];
            self.render_field_gen(&areas[i], buf, v.value.as_str(), v.name.as_str(), v.class);
            i += 1;
        }
    }

    /// Dispatch one field to the draw routine of its visual class.
    fn render_field_gen(
        &self,
        area: &ratatui::layout::Rect,
        buf: &mut ratatui::buffer::Buffer,
        content: &str,
        title: &str,
        fr: FieldRenderType,
    ) {
        match fr {
            FieldRenderType::Normal => draw_field_normal(area, buf, content, title),
            FieldRenderType::Invalid => draw_field_invalid(
                area,
                buf,
                content,
                title,
                self.form.get_invalid_style(),
            ),
            FieldRenderType::Hovered => draw_field_hovered(
                area,
                buf,
                content,
                title,
                self.form.get_hovered_style(),
            ),
            FieldRenderType::Active => draw_field_active(
                area,
                buf,
                content,
                title,
                self.form.get_active_style(),
            ),
        }
    }
}

} // verus!
