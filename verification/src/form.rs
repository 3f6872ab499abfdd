//! The form state machine: field buffers, selection, editing, submission
//! and validation.

use crate::tui::{color_cyan, color_red, style_bold, style_fg, style_new};
use ratatui::style::Style;
use vstd::prelude::*;

verus! {

/// Relies on `String::push`: appends the character to the end of the buffer.
pub assume_specification[ String::push ](s: &mut String, ch: char)
    ensures
        final(s)@ == old(s)@.push(ch),
;

/// Relies on `String::pop`: removes and returns the last character; `None`
/// and no change on an empty buffer.
pub assume_specification[ String::pop ](s: &mut String) -> (r: Option<char>)
    ensures
        old(s)@.len() == 0 ==> r is None && final(s)@ == old(s)@,
        old(s)@.len() > 0 ==> r == Some(old(s)@.last()) && final(s)@ == old(s)@.drop_last(),
;

/// A decoded logical key, supplied once per loop iteration by the embedding
/// application (which owns the terminal event source and its decoding).
#[derive(Clone, Copy, PartialEq, Eq, Debug)]
pub enum Key {
    /// The commit key (enter).
    Enter,
    /// The escape key.
    Esc,
    /// The backspace key.
    Backspace,
    /// A printable character.
    Char(char),
    /// Any other key code: ignored in every mode.
    Other,
}

/// Whether a field's buffer passed validation.
#[derive(Clone, Copy, PartialEq, Eq, Debug)]
pub enum FieldStatus {
    /// The buffer passed the validation predicate (or the form is not
    /// submitted yet).
    Valid,
    /// The buffer failed the validation predicate on a submitted form.
    Invalid,
}

/// The current selection of a form: nothing, a field the user would
/// activate next, or the field receiving keystrokes.
#[derive(Clone, Copy, PartialEq, Eq, Debug)]
pub enum FormSelection {
    /// No field is hovered or active.
    NoSelection,
    /// The field at this index is hovered.
    Hovered(usize),
    /// The field at this index receives keystrokes.
    Active(usize),
}

/// A validation predicate over a field's text buffer, stored by the form
/// and invoked afresh on every status query. Implementations pair the
/// executable check with the specification-level predicate it decides.
pub trait Validator: Sized {
    /// What the predicate holds of a buffer, at the specification level.
    spec fn spec_valid(&self, s: Seq<char>) -> bool;

    /// Decide the predicate on a buffer.
    fn check(&self, s: &str) -> (r: bool)
        ensures
            r == self.spec_valid(s@),
    ;
}

/// The default validation predicate: a buffer is valid when it is not empty.
#[derive(Clone, Copy, PartialEq, Eq, Debug)]
pub struct NonEmpty;

impl Validator for NonEmpty {
    open spec fn spec_valid(&self, s: Seq<char>) -> bool {
        s.len() > 0
    }

    fn check(&self, s: &str) -> (r: bool) {
        !s.is_empty()
    }
}

/// The specification-level content of a [`Field`]: label, buffer contents
/// and validity.
#[verifier::ext_equal]
pub struct FieldModel {
    /// The field's label.
    pub name: Seq<char>,
    /// The field's buffer contents.
    pub value: Seq<char>,
    /// Whether the buffer counts as valid.
    pub valid: bool,
}

/// One form field's data together with whether it is valid: the ephemeral
/// per-field result of a status query, never stored by the form.
pub struct Field {
    name: String,
    value: String,
    status: FieldStatus,
}

impl View for Field {
    type V = FieldModel;

    closed spec fn view(&self) -> FieldModel {
        FieldModel {
            name: self.name@,
            value: self.value@,
            valid: self.status is Valid,
        }
    }
}

impl Field {
    /// A field reported as valid.
    pub fn valid(name: &str, value: &str) -> (f: Field)
        ensures
            f@ == (FieldModel { name: name@, value: value@, valid: true }),
    {
        Field { name: name.to_owned(), value: value.to_owned(), status: FieldStatus::Valid }
    }

    /// A field reported as invalid.
    pub fn invalid(name: &str, value: &str) -> (f: Field)
        ensures
            f@ == (FieldModel { name: name@, value: value@, valid: false }),
    {
        Field { name: name.to_owned(), value: value.to_owned(), status: FieldStatus::Invalid }
    }

    /// The field's label.
    pub fn name(&self) -> (r: &str)
        ensures
            r@ == self@.name,
    {
        self.name.as_str()
    }

    /// The field's buffer contents.
    pub fn value(&self) -> (r: &str)
        ensures
            r@ == self@.value,
    {
        self.value.as_str()
    }

    /// Whether the field was reported valid.
    pub fn is_valid(&self) -> (r: bool)
        ensures
            r == self@.valid,
    {
        match self.status {
            FieldStatus::Valid => true,
            FieldStatus::Invalid => false,
        }
    }
}

/// One form field's persisted data: an immutable label and a mutable text
/// buffer, owned by the form.
struct FieldBuffer {
    name: String,
    val: String,
}

/// Whether a selection only points at fields below `n`.
pub open spec fn sel_in_range(s: FormSelection, n: nat) -> bool {
    match s {
        FormSelection::NoSelection => true,
        FormSelection::Hovered(i) => (i as nat) < n,
        FormSelection::Active(i) => (i as nat) < n,
    }
}

/// The selection after one forward navigation step on a form of `n` fields:
/// entering navigation lands on the first field, and both hovered and active
/// selections advance modulo `n`. On an empty form nothing moves.
pub open spec fn spec_next_selection(s: FormSelection, n: nat) -> FormSelection {
    if n == 0 {
        s
    } else {
        match s {
            FormSelection::NoSelection => FormSelection::Hovered(0),
            FormSelection::Hovered(i) => FormSelection::Hovered(
                ((i as int + 1) % (n as int)) as usize,
            ),
            FormSelection::Active(i) => FormSelection::Active(
                ((i as int + 1) % (n as int)) as usize,
            ),
        }
    }
}

/// The selection after one backward navigation step: entering navigation
/// lands on the first field, and decrementing from 0 wraps to `n - 1`.
/// On an empty form nothing moves.
pub open spec fn spec_prev_selection(s: FormSelection, n: nat) -> FormSelection {
    if n == 0 {
        s
    } else {
        match s {
            FormSelection::NoSelection => FormSelection::Hovered(0),
            FormSelection::Hovered(i) => FormSelection::Hovered(
                if i == 0 {
                    (n - 1) as usize
                } else {
                    (i - 1) as usize
                },
            ),
            FormSelection::Active(i) => FormSelection::Active(
                if i == 0 {
                    (n - 1) as usize
                } else {
                    (i - 1) as usize
                },
            ),
        }
    }
}

/// The selection after feeding `key` to a form of `n` fields whose current
/// selection is `s`. Two input grammars: while a field is active, the commit
/// key advances without leaving edit mode and escape drops back to hovering;
/// otherwise escape clears the selection, `j`/`k` navigate, and the commit
/// key activates the hovered field (or the first field when none is hovered).
/// Unrecognized keys, and the commit key on an empty form, change nothing.
pub open spec fn spec_key_selection(s: FormSelection, n: nat, key: Key) -> FormSelection {
    match s {
        FormSelection::Active(i) => match key {
            Key::Enter => spec_next_selection(s, n),
            Key::Esc => FormSelection::Hovered(i),
            _ => s,
        },
        _ => match key {
            Key::Esc => FormSelection::NoSelection,
            Key::Char(c) => if c == 'j' {
                spec_next_selection(s, n)
            } else if c == 'k' {
                spec_prev_selection(s, n)
            } else {
                s
            },
            Key::Enter => if n == 0 {
                s
            } else {
                match s {
                    FormSelection::Hovered(i) => FormSelection::Active(i),
                    _ => FormSelection::Active(0),
                }
            },
            _ => s,
        },
    }
}

/// The buffers after feeding `key` while the selection is `s`: while field
/// `i` is active, a printable character is appended to buffer `i` and
/// backspace removes its last character (a no-op on an empty buffer); in
/// every other case the buffers are untouched.
pub open spec fn spec_key_values(s: FormSelection, values: Seq<Seq<char>>, key: Key) -> Seq<
    Seq<char>,
> {
    match s {
        FormSelection::Active(i) => match key {
            Key::Backspace => if values[i as int].len() == 0 {
                values
            } else {
                values.update(i as int, values[i as int].drop_last())
            },
            Key::Char(c) => values.update(i as int, values[i as int].push(c)),
            _ => values,
        },
        _ => values,
    }
}

/// The specification-level field models a status query reports.
pub open spec fn models_of(s: Seq<Field>) -> Seq<FieldModel> {
    s.map_values(|f: Field| f@)
}

/// A widget to display data in a collection of labeled text fields.
///
/// The form owns the field buffers, the current selection, the submitted
/// flag and the validation predicate, plus four opaque style attributes
/// consumed by the renderer. Validation results are never cached: every
/// status query recomputes them from the submitted flag and the predicate.
pub struct Form<V: Validator> {
    selected: FormSelection,
    fields: Vec<FieldBuffer>,
    submitted: bool,
    validator: V,
    default_field_style: Style,
    invalid_field_style: Style,
    hovered_field_style: Style,
    active_field_style: Style,
}

impl<V: Validator> Form<V> {
    /// The field labels, in display order.
    pub closed spec fn names(self) -> Seq<Seq<char>> {
        self.fields@.map(|i: int, fb: FieldBuffer| fb.name@)
    }

    /// The field buffers, in display order.
    pub closed spec fn values(self) -> Seq<Seq<char>> {
        self.fields@.map(|i: int, fb: FieldBuffer| fb.val@)
    }

    /// How many fields the form has.
    pub open spec fn field_count(self) -> nat {
        self.values().len()
    }

    /// The current selection.
    pub closed spec fn selection(self) -> FormSelection {
        self.selected
    }

    /// Whether the form has been submitted.
    pub closed spec fn is_submitted(self) -> bool {
        self.submitted
    }

    /// The stored validation predicate.
    pub closed spec fn spec_validator(self) -> V {
        self.validator
    }

    /// The style of an undecorated field.
    pub closed spec fn spec_default_style(self) -> Style {
        self.default_field_style
    }

    /// The style of an invalid field.
    pub closed spec fn spec_invalid_style(self) -> Style {
        self.invalid_field_style
    }

    /// The style of a hovered field.
    pub closed spec fn spec_hovered_style(self) -> Style {
        self.hovered_field_style
    }

    /// The style of the active field.
    pub closed spec fn spec_active_style(self) -> Style {
        self.active_field_style
    }

    /// Well-formedness: the selection only points at existing fields.
    pub open spec fn wf(self) -> bool {
        sel_in_range(self.selection(), self.field_count())
    }

    /// Whether field `i` counts as valid right now: before submission every
    /// field does, regardless of its buffer; afterwards exactly when the
    /// predicate accepts the buffer.
    pub open spec fn spec_field_valid(self, i: int) -> bool {
        !self.is_submitted() || self.spec_validator().spec_valid(self.values()[i])
    }

    /// What a status query reports: one model per field, validity computed
    /// fresh from the submitted flag and the predicate.
    pub open spec fn spec_status(self) -> Seq<FieldModel> {
        Seq::new(
            self.field_count(),
            |i: int| FieldModel {
                name: self.names()[i],
                value: self.values()[i],
                valid: self.spec_field_valid(i),
            },
        )
    }

    /// The two forms hold the same labels and buffers.
    pub open spec fn same_fields(self, o: Self) -> bool {
        self.names() == o.names() && self.values() == o.values()
    }

    /// The two forms hold the same four style attributes.
    pub open spec fn same_styles(self, o: Self) -> bool {
        self.spec_default_style() == o.spec_default_style()
            && self.spec_invalid_style() == o.spec_invalid_style()
            && self.spec_hovered_style() == o.spec_hovered_style()
            && self.spec_active_style() == o.spec_active_style()
    }

    /// The two forms hold the same validator and styles.
    pub open spec fn same_config(self, o: Self) -> bool {
        self.spec_validator() == o.spec_validator() && self.same_styles(o)
    }

    /// Create a form from a list of field labels and a validation predicate.
    /// Every buffer starts empty, nothing is selected, and the form is not
    /// submitted. Default styles: normal undecorated, invalid bold red,
    /// hovered cyan, active bold cyan.
    pub fn new(names: Vec<String>, validator: V) -> (f: Form<V>)
        ensures
            f.field_count() == names@.len(),
            forall|i: int| 0 <= i < names@.len() ==> #[trigger] f.names()[i] == names@[i]@,
            forall|i: int|
                0 <= i < names@.len() ==> #[trigger] f.values()[i] == Seq::<char>::empty(),
            f.selection() == FormSelection::NoSelection,
            !f.is_submitted(),
            f.spec_validator() == validator,
            f.wf(),
    {
        let mut fields: Vec<FieldBuffer> = Vec::new();
        let mut k: usize = 0;
        while k < names.len()
            invariant
                k <= names@.len(),
                fields@.len() == k,
                forall|j: int| 0 <= j < k ==> #[trigger] fields@[j].name@ == names@[j]@,
                forall|j: int| 0 <= j < k ==> #[trigger] fields@[j].val@ == Seq::<char>::empty(),
            decreases names@.len() - k,
        {
            fields.push(FieldBuffer { name: names[k].clone(), val: String::new() });
            k += 1;
        }
        Form {
            selected: FormSelection::NoSelection,
            fields,
            submitted: false,
            validator,
            default_field_style: style_new(),
            invalid_field_style: style_bold(style_fg(style_new(), color_red())),
            hovered_field_style: style_fg(style_new(), color_cyan()),
            active_field_style: style_bold(style_fg(style_new(), color_cyan())),
        }
    }

    /// Advance the selection to the next field: entering navigation lands on
    /// the first field; hovered and active selections move forward modulo
    /// the field count. A no-op on an empty form.
    pub fn next_field(&mut self)
        requires
            old(self).wf(),
        ensures
            final(self).wf(),
            final(self).selection() == spec_next_selection(
                old(self).selection(),
                old(self).field_count(),
            ),
            final(self).same_fields(*old(self)),
            final(self).is_submitted() == old(self).is_submitted(),
            final(self).same_config(*old(self)),
    {
        let n = self.fields.len();
        if n == 0 {
            return ;
        }
        self.selected = match self.selected {
            FormSelection::NoSelection => FormSelection::Hovered(0),
            FormSelection::Hovered(i) => FormSelection::Hovered((i + 1) % n),
            FormSelection::Active(i) => FormSelection::Active((i + 1) % n),
        };
    }

    /// Move the selection to the previous field: entering navigation lands
    /// on the first field; decrementing from 0 wraps to the last field.
    /// A no-op on an empty form.
    pub fn prev_field(&mut self)
        requires
            old(self).wf(),
        ensures
            final(self).wf(),
            final(self).selection() == spec_prev_selection(
                old(self).selection(),
                old(self).field_count(),
            ),
            final(self).same_fields(*old(self)),
            final(self).is_submitted() == old(self).is_submitted(),
            final(self).same_config(*old(self)),
    {
        let n = self.fields.len();
        if n == 0 {
            return ;
        }
        self.selected = match self.selected {
            FormSelection::NoSelection => FormSelection::Hovered(0),
            FormSelection::Hovered(i) => FormSelection::Hovered(
                if i == 0 {
                    n - 1
                } else {
                    i - 1
                },
            ),
            FormSelection::Active(i) => FormSelection::Active(
                if i == 0 {
                    n - 1
                } else {
                    i - 1
                },
            ),
        };
    }

    /// Set the selection directly. The caller keeps the selection in range.
    pub fn select(&mut self, s: FormSelection)
        requires
            sel_in_range(s, old(self).field_count()),
        ensures
            final(self).wf(),
            final(self).selection() == s,
            final(self).same_fields(*old(self)),
            final(self).is_submitted() == old(self).is_submitted(),
            final(self).same_config(*old(self)),
    {
        self.selected = s;
    }

    /// The current selection.
    pub fn selected(&self) -> (r: &FormSelection)
        ensures
            *r == self.selection(),
    {
        &self.selected
    }

    /// Clear the selection unconditionally.
    pub fn deselect(&mut self)
        ensures
            final(self).wf(),
            final(self).selection() == FormSelection::NoSelection,
            final(self).same_fields(*old(self)),
            final(self).is_submitted() == old(self).is_submitted(),
            final(self).same_config(*old(self)),
    {
        self.selected = FormSelection::NoSelection;
    }

    /// Set whether the form counts as submitted.
    pub fn submitted(&mut self, submitted: bool)
        ensures
            final(self).is_submitted() == submitted,
            final(self).selection() == old(self).selection(),
            final(self).same_fields(*old(self)),
            final(self).same_config(*old(self)),
    {
        self.submitted = submitted;
    }

    /// Append one character to the buffer of field `field`.
    fn append_field(&mut self, ch: char, field: usize)
        requires
            (field as int) < old(self).field_count(),
        ensures
            final(self).values() == old(self).values().update(
                field as int,
                old(self).values()[field as int].push(ch),
            ),
            final(self).names() == old(self).names(),
            final(self).selection() == old(self).selection(),
            final(self).field_count() == old(self).field_count(),
            final(self).is_submitted() == old(self).is_submitted(),
            final(self).same_config(*old(self)),
    {
        let fb = &mut self.fields[field];
        fb.val.push(ch);
        proof {
            assert(self.names() =~= old(self).names());
            assert(self.values() =~= old(self).values().update(
                field as int,
                old(self).values()[field as int].push(ch),
            ));
        }
    }

    /// Remove the last character of the buffer of field `field`; a no-op on
    /// an empty buffer.
    fn pop_field(&mut self, field: usize)
        requires
            (field as int) < old(self).field_count(),
        ensures
            old(self).values()[field as int].len() == 0 ==> final(self).values() == old(
                self,
            ).values(),
            old(self).values()[field as int].len() > 0 ==> final(self).values() == old(
                self,
            ).values().update(field as int, old(self).values()[field as int].drop_last()),
            final(self).names() == old(self).names(),
            final(self).selection() == old(self).selection(),
            final(self).field_count() == old(self).field_count(),
            final(self).is_submitted() == old(self).is_submitted(),
            final(self).same_config(*old(self)),
    {
        let fb = &mut self.fields[field];
        fb.val.pop();
        proof {
            assert(self.names() =~= old(self).names());
            if old(self).values()[field as int].len() == 0 {
                assert(self.values() =~= old(self).values());
            } else {
                assert(self.values() =~= old(self).values().update(
                    field as int,
                    old(self).values()[field as int].drop_last(),
                ));
            }
        }
    }

    /// Append one character to the active field's buffer; a no-op unless a
    /// field is active.
    pub fn append_selection(&mut self, ch: char)
        requires
            old(self).wf(),
        ensures
            final(self).wf(),
            final(self).selection() == old(self).selection(),
            final(self).names() == old(self).names(),
            final(self).is_submitted() == old(self).is_submitted(),
            final(self).same_config(*old(self)),
            final(self).values() == match old(self).selection() {
                FormSelection::Active(i) => old(self).values().update(
                    i as int,
                    old(self).values()[i as int].push(ch),
                ),
                _ => old(self).values(),
            },
    {
        match self.selected {
            FormSelection::NoSelection => {},
            FormSelection::Hovered(_) => {},
            FormSelection::Active(i) => self.append_field(ch, i),
        }
    }

    /// Remove the last character of the active field's buffer; a no-op
    /// unless a field is active, and on an empty buffer.
    pub fn pop_selection(&mut self)
        requires
            old(self).wf(),
        ensures
            final(self).wf(),
            final(self).selection() == old(self).selection(),
            final(self).names() == old(self).names(),
            final(self).is_submitted() == old(self).is_submitted(),
            final(self).same_config(*old(self)),
            final(self).values() == spec_key_values(
                old(self).selection(),
                old(self).values(),
                Key::Backspace,
            ),
    {
        match self.selected {
            FormSelection::NoSelection => {},
            FormSelection::Hovered(_) => {},
            FormSelection::Active(i) => self.pop_field(i),
        }
    }

    /// Feed one decoded key to the form. While a field is active, the commit
    /// key advances to the next field without leaving edit mode, escape
    /// drops back to hovering, backspace and printable characters edit the
    /// buffer. Otherwise escape clears the selection, `j`/`k` navigate, and
    /// the commit key activates the hovered field (or the first field when
    /// none is hovered). Any other key is ignored.
    pub fn input(&mut self, key: Key)
        requires
            old(self).wf(),
        ensures
            final(self).wf(),
            final(self).selection() == spec_key_selection(
                old(self).selection(),
                old(self).field_count(),
                key,
            ),
            final(self).values() == spec_key_values(old(self).selection(), old(self).values(), key),
            final(self).names() == old(self).names(),
            final(self).is_submitted() == old(self).is_submitted(),
            final(self).same_config(*old(self)),
    {
        if let FormSelection::Active(i) = self.selected {
            match key {
                Key::Enter => self.next_field(),
                Key::Esc => self.select(FormSelection::Hovered(i)),
                Key::Backspace => self.pop_field(i),
                Key::Char(ch) => self.append_field(ch, i),
                _ => {},
            }
        } else {
            match key {
                Key::Esc => self.select(FormSelection::NoSelection),
                Key::Char(ch) => {
                    if ch == 'j' {
                        self.next_field();
                    } else if ch == 'k' {
                        self.prev_field();
                    }
                },
                Key::Enter => {
                    if self.fields.len() > 0 {
                        if let FormSelection::Hovered(i) = self.selected {
                            self.selected = FormSelection::Active(i);
                        } else {
                            self.selected = FormSelection::Active(0);
                        }
                    }
                },
                _ => {},
            }
        }
    }

    /// Return the state of all fields. Validity is recomputed on every call:
    /// before submission every field reports valid regardless of its buffer;
    /// afterwards a field is valid exactly when the predicate accepts its
    /// buffer.
    pub fn status(&self) -> (r: Vec<Field>)
        ensures
            r@.len() == self.field_count(),
            forall|i: int| 0 <= i < r@.len() ==> #[trigger] r@[i]@ == self.spec_status()[i],
            models_of(r@) == self.spec_status(),
    {
        let mut out: Vec<Field> = Vec::new();
        let mut k: usize = 0;
        while k < self.fields.len()
            invariant
                k <= self.fields@.len(),
                out@.len() == k,
                forall|j: int| 0 <= j < k ==> #[trigger] out@[j]@ == self.spec_status()[j],
            decreases self.fields@.len() - k,
        {
            let fb = &self.fields[k];
            let f = if self.submitted {
                if self.validator.check(fb.val.as_str()) {
                    Field::valid(fb.name.as_str(), fb.val.as_str())
                } else {
                    Field::invalid(fb.name.as_str(), fb.val.as_str())
                }
            } else {
                Field::valid(fb.name.as_str(), fb.val.as_str())
            };
            out.push(f);
            k += 1;
        }
        proof {
            assert(models_of(out@) =~= self.spec_status());
        }
        out
    }

    /// Submit the form: set the submitted flag, then return the per-field
    /// status computed against the current buffers. Selection and buffers
    /// are untouched; deciding what an all-valid or any-invalid result means
    /// is the caller's business.
    pub fn submit(&mut self) -> (r: Vec<Field>)
        ensures
            final(self).is_submitted(),
            final(self).selection() == old(self).selection(),
            final(self).same_fields(*old(self)),
            final(self).same_config(*old(self)),
            r@.len() == old(self).field_count(),
            models_of(r@) == final(self).spec_status(),
            forall|i: int|
                0 <= i < r@.len() ==> #[trigger] r@[i]@.valid == old(self).spec_validator().spec_valid(
                    old(self).values()[i],
                ),
    {
        self.submitted = true;
        self.status()
    }

    /// Set the style drawn on the active field.
    pub fn active_field_style(&mut self, style: Style)
        ensures
            final(self).spec_active_style() == style,
            final(self).spec_default_style() == old(self).spec_default_style(),
            final(self).spec_invalid_style() == old(self).spec_invalid_style(),
            final(self).spec_hovered_style() == old(self).spec_hovered_style(),
            final(self).selection() == old(self).selection(),
            final(self).same_fields(*old(self)),
            final(self).is_submitted() == old(self).is_submitted(),
            final(self).spec_validator() == old(self).spec_validator(),
    {
        self.active_field_style = style;
    }

    /// Set the style drawn on invalid fields.
    pub fn invalid_field_style(&mut self, style: Style)
        ensures
            final(self).spec_invalid_style() == style,
            final(self).spec_default_style() == old(self).spec_default_style(),
            final(self).spec_hovered_style() == old(self).spec_hovered_style(),
            final(self).spec_active_style() == old(self).spec_active_style(),
            final(self).selection() == old(self).selection(),
            final(self).same_fields(*old(self)),
            final(self).is_submitted() == old(self).is_submitted(),
            final(self).spec_validator() == old(self).spec_validator(),
    {
        self.invalid_field_style = style;
    }

    /// Set the style drawn on the hovered field.
    pub fn hovered_field_style(&mut self, style: Style)
        ensures
            final(self).spec_hovered_style() == style,
            final(self).spec_default_style() == old(self).spec_default_style(),
            final(self).spec_invalid_style() == old(self).spec_invalid_style(),
            final(self).spec_active_style() == old(self).spec_active_style(),
            final(self).selection() == old(self).selection(),
            final(self).same_fields(*old(self)),
            final(self).is_submitted() == old(self).is_submitted(),
            final(self).spec_validator() == old(self).spec_validator(),
    {
        self.hovered_field_style = style;
    }

    /// Set the style drawn on fields with no other decoration.
    pub fn default_field_style(&mut self, style: Style)
        ensures
            final(self).spec_default_style() == style,
            final(self).spec_invalid_style() == old(self).spec_invalid_style(),
            final(self).spec_hovered_style() == old(self).spec_hovered_style(),
            final(self).spec_active_style() == old(self).spec_active_style(),
            final(self).selection() == old(self).selection(),
            final(self).same_fields(*old(self)),
            final(self).is_submitted() == old(self).is_submitted(),
            final(self).spec_validator() == old(self).spec_validator(),
    {
        self.default_field_style = style;
    }

    /// The style drawn on fields with no other decoration.
    pub(crate) fn get_default_style(&self) -> (r: &Style)
        ensures
            *r == self.spec_default_style(),
    {
        &self.default_field_style
    }

    /// The style drawn on invalid fields.
    pub(crate) fn get_invalid_style(&self) -> (r: &Style)
        ensures
            *r == self.spec_invalid_style(),
    {
        &self.invalid_field_style
    }

    /// The style drawn on the hovered field.
    pub(crate) fn get_hovered_style(&self) -> (r: &Style)
        ensures
            *r == self.spec_hovered_style(),
    {
        &self.hovered_field_style
    }

    /// The style drawn on the active field.
    pub(crate) fn get_active_style(&self) -> (r: &Style)
        ensures
            *r == self.spec_active_style(),
    {
        &self.active_field_style
    }

    /// How many fields the form has.
    pub fn num_fields(&self) -> (r: usize)
        ensures
            r as nat == self.field_count(),
    {
        self.fields.len()
    }

    /// Whether the form has been submitted.
    pub(crate) fn get_submitted(&self) -> (r: bool)
        ensures
            r == self.is_submitted(),
    {
        self.submitted
    }

    /// A drawable projection of the form against its current state; the
    /// render pass borrows the form read-only and must end before the next
    /// mutation.
    pub fn widget(&self) -> (r: crate::widget::Renderer<'_, V>)
        ensures
            r.spec_form() == *self,
    {
        crate::widget::Renderer::new(self)
    }
}

impl Form<NonEmpty> {
    /// Create a form from field labels alone: empty buffers and the default
    /// non-empty validation predicate.
    pub fn from_names(names: Vec<String>) -> (f: Form<NonEmpty>)
        ensures
            f.field_count() == names@.len(),
            forall|i: int| 0 <= i < names@.len() ==> #[trigger] f.names()[i] == names@[i]@,
            forall|i: int|
                0 <= i < names@.len() ==> #[trigger] f.values()[i] == Seq::<char>::empty(),
            f.selection() == FormSelection::NoSelection,
            !f.is_submitted(),
            f.spec_validator() == NonEmpty,
            f.wf(),
    {
        Form::new(names, NonEmpty)
    }

    /// Create a form from label/value pairs: pre-filled buffers and the
    /// default non-empty validation predicate.
    pub fn from_pairs(pairs: Vec<(String, String)>) -> (f: Form<NonEmpty>)
        ensures
            f.field_count() == pairs@.len(),
            forall|i: int| 0 <= i < pairs@.len() ==> #[trigger] f.names()[i] == pairs@[i].0@,
            forall|i: int| 0 <= i < pairs@.len() ==> #[trigger] f.values()[i] == pairs@[i].1@,
            f.selection() == FormSelection::NoSelection,
            !f.is_submitted(),
            f.spec_validator() == NonEmpty,
            f.wf(),
    {
        let mut fields: Vec<FieldBuffer> = Vec::new();
        let mut k: usize = 0;
        while k < pairs.len()
            invariant
                k <= pairs@.len(),
                fields@.len() == k,
                forall|j: int| 0 <= j < k ==> #[trigger] fields@[j].name@ == pairs@[j].0@,
                forall|j: int| 0 <= j < k ==> #[trigger] fields@[j].val@ == pairs@[j].1@,
            decreases pairs@.len() - k,
        {
            let name = pairs[k].0.clone();
            let val = pairs[k].1.clone();
            fields.push(FieldBuffer { name, val });
            k += 1;
        }
        Form {
            selected: FormSelection::NoSelection,
            fields,
            submitted: false,
            validator: NonEmpty,
            default_field_style: style_new(),
            invalid_field_style: style_bold(style_fg(style_new(), color_red())),
            hovered_field_style: style_fg(style_new(), color_cyan()),
            active_field_style: style_bold(style_fg(style_new(), color_cyan())),
        }
    }
}

impl Default for Form<NonEmpty> {
    /// An empty form: no fields, nothing selected, not submitted, the
    /// default non-empty predicate and the default styles.
    fn default() -> (f: Self)
        ensures
            f.field_count() == 0,
            f.selection() == FormSelection::NoSelection,
            !f.is_submitted(),
            f.spec_validator() == NonEmpty,
            f.wf(),
    {
        Form::new(Vec::new(), NonEmpty)
    }
}

/// Wraparound law: on a non-empty form every navigation step, forward or
/// backward, yields a selection whose index is again below the field count.
pub proof fn lemma_navigation_stays_in_range(s: FormSelection, n: nat)
    requires
        n >= 1,
        sel_in_range(s, n),
    ensures
        sel_in_range(spec_next_selection(s, n), n),
        sel_in_range(spec_prev_selection(s, n), n),
{
}

/// The selection after a whole sequence of navigation steps, each either
/// forward (`true`) or backward (`false`).
pub open spec fn spec_navigate(s: FormSelection, n: nat, steps: Seq<bool>) -> FormSelection
    decreases steps.len(),
{
    if steps.len() == 0 {
        s
    } else {
        let s1 = if steps[0] {
            spec_next_selection(s, n)
        } else {
            spec_prev_selection(s, n)
        };
        spec_navigate(s1, n, steps.subrange(1, steps.len() as int))
    }
}

/// Wraparound law over whole histories: for every field count `n >= 1` and
/// every sequence of next/prev calls, the resulting selection index stays
/// below `n`.
pub proof fn lemma_navigation_sequence_stays_in_range(s: FormSelection, n: nat, steps: Seq<bool>)
    requires
        n >= 1,
        sel_in_range(s, n),
    ensures
        sel_in_range(spec_navigate(s, n, steps), n),
    decreases steps.len(),
{
    if steps.len() > 0 {
        lemma_navigation_stays_in_range(s, n);
        let s1 = if steps[0] {
            spec_next_selection(s, n)
        } else {
            spec_prev_selection(s, n)
        };
        lemma_navigation_sequence_stays_in_range(s1, n, steps.subrange(1, steps.len() as int));
    }
}

/// Before any submission every field reports valid, regardless of its
/// buffer contents.
pub proof fn lemma_unsubmitted_all_valid<V: Validator>(f: Form<V>)
    requires
        !f.is_submitted(),
    ensures
        forall|i: int| 0 <= i < f.field_count() ==> f.spec_field_valid(i),
{
}

/// After submission a field's validity is exactly the predicate applied to
/// its current buffer.
pub proof fn lemma_submitted_validity<V: Validator>(f: Form<V>, i: int)
    requires
        f.is_submitted(),
        0 <= i < f.field_count(),
    ensures
        f.spec_field_valid(i) == f.spec_validator().spec_valid(f.values()[i]),
{
}

/// Validity is never cached: it depends on nothing but the submitted flag,
/// the predicate and the field's current buffer, so editing a buffer is by
/// itself enough to change what the next status query reports.
pub proof fn lemma_validity_uncached<V: Validator>(f1: Form<V>, f2: Form<V>, i: int)
    requires
        f1.is_submitted() == f2.is_submitted(),
        f1.spec_validator() == f2.spec_validator(),
        0 <= i < f1.field_count(),
        0 <= i < f2.field_count(),
        f1.values()[i] == f2.values()[i],
    ensures
        f1.spec_field_valid(i) == f2.spec_field_valid(i),
{
}

/// Status queries are idempotent: two queries against the same form, with
/// no mutation between them, report the same field models.
pub proof fn lemma_status_idempotent<V: Validator>(
    f: Form<V>,
    r1: Seq<FieldModel>,
    r2: Seq<FieldModel>,
)
    requires
        r1 == f.spec_status(),
        r2 == f.spec_status(),
    ensures
        r1 == r2,
{
}

} // verus!
