use tui_form::{Field, Form, FormSelection, Key};

fn names3() -> Vec<String> {
    vec!["Account".to_string(), "Username".to_string(), "Password".to_string()]
}

fn values_of(form: &Form<tui_form::NonEmpty>) -> Vec<String> {
    form.status().iter().map(|f| f.value().to_string()).collect()
}

#[test]
fn field_constructors_and_getters() {
    let f = Field::valid("Account", "alice");
    assert_eq!(f.name(), "Account");
    assert_eq!(f.value(), "alice");
    assert!(f.is_valid());
    let g = Field::invalid("Password", "");
    assert_eq!(g.name(), "Password");
    assert_eq!(g.value(), "");
    assert!(!g.is_valid());
}

#[test]
fn scenario_navigate_type_escape() {
    // Three empty fields, default non-empty validator: navigate down to the
    // last field, activate it, type "xyz", escape back to hovering.
    let mut form = Form::from_names(names3());
    assert_eq!(*form.selected(), FormSelection::NoSelection);
    form.input(Key::Char('j'));
    assert_eq!(*form.selected(), FormSelection::Hovered(0));
    form.input(Key::Char('j'));
    form.input(Key::Char('j'));
    assert_eq!(*form.selected(), FormSelection::Hovered(2));
    form.input(Key::Enter);
    assert_eq!(*form.selected(), FormSelection::Active(2));
    form.input(Key::Char('x'));
    form.input(Key::Char('y'));
    form.input(Key::Char('z'));
    assert_eq!(values_of(&form), vec!["", "", "xyz"]);
    form.input(Key::Esc);
    assert_eq!(*form.selected(), FormSelection::Hovered(2));
    assert_eq!(values_of(&form), vec!["", "", "xyz"]);
}

#[test]
fn scenario_submit_mixed_validity() {
    // Field 0 pre-filled with "alice", fields 1 and 2 left empty.
    let mut form = Form::from_pairs(vec![
        ("Account".to_string(), "alice".to_string()),
        ("Username".to_string(), String::new()),
        ("Password".to_string(), String::new()),
    ]);
    let status = form.submit();
    assert_eq!(status.len(), 3);
    assert!(status[0].is_valid());
    assert_eq!(status[0].value(), "alice");
    assert!(!status[1].is_valid());
    assert_eq!(status[1].value(), "");
    assert!(!status[2].is_valid());
    assert_eq!(status[2].value(), "");
}

#[test]
fn scenario_commit_with_no_selection_activates_first_field() {
    let mut form = Form::from_names(names3());
    form.input(Key::Enter);
    assert_eq!(*form.selected(), FormSelection::Active(0));
}

#[test]
fn scenario_prev_from_first_field_wraps_to_last() {
    let mut form = Form::from_names(names3());
    form.select(FormSelection::Hovered(0));
    form.input(Key::Char('k'));
    assert_eq!(*form.selected(), FormSelection::Hovered(2));
}

fn selected_index_in_range(form: &Form<tui_form::NonEmpty>, n: usize) -> bool {
    match *form.selected() {
        FormSelection::NoSelection => true,
        FormSelection::Hovered(i) => i < n,
        FormSelection::Active(i) => i < n,
    }
}

#[test]
fn navigation_index_stays_in_range() {
    let mut form = Form::from_names(names3());
    for round in 0..20 {
        if round % 3 == 0 {
            form.next_field();
        } else {
            form.prev_field();
        }
        assert!(selected_index_in_range(&form, 3));
    }
    form.select(FormSelection::Active(2));
    for _ in 0..7 {
        form.next_field();
        assert!(selected_index_in_range(&form, 3));
    }
    for _ in 0..7 {
        form.prev_field();
        assert!(selected_index_in_range(&form, 3));
    }
}

#[test]
fn next_and_prev_wrap_modulo_field_count() {
    let mut form = Form::from_names(names3());
    form.select(FormSelection::Hovered(2));
    form.next_field();
    assert_eq!(*form.selected(), FormSelection::Hovered(0));
    form.select(FormSelection::Active(2));
    form.input(Key::Enter);
    assert_eq!(*form.selected(), FormSelection::Active(0));
}

#[test]
fn status_before_submit_reports_all_valid() {
    // Buffers are empty, so the non-empty predicate rejects them; before
    // submission the status must still report every field valid.
    let form = Form::from_names(names3());
    let status = form.status();
    assert_eq!(status.len(), 3);
    assert!(status.iter().all(|f| f.is_valid()));
}

#[test]
fn validity_follows_the_buffer_without_resubmitting() {
    let mut form = Form::from_names(vec!["Account".to_string()]);
    let status = form.submit();
    assert!(!status[0].is_valid());
    form.select(FormSelection::Active(0));
    form.append_selection('a');
    // No further submit: the next status query already sees the edit.
    let status = form.status();
    assert!(status[0].is_valid());
    form.pop_selection();
    let status = form.status();
    assert!(!status[0].is_valid());
}

#[test]
fn status_is_idempotent_without_mutation() {
    let mut form = Form::from_pairs(vec![
        ("Account".to_string(), "alice".to_string()),
        ("Password".to_string(), String::new()),
    ]);
    form.submit();
    let first = form.status();
    let second = form.status();
    assert_eq!(first.len(), second.len());
    for (a, b) in first.iter().zip(second.iter()) {
        assert_eq!(a.name(), b.name());
        assert_eq!(a.value(), b.value());
        assert_eq!(a.is_valid(), b.is_valid());
    }
}

#[test]
fn backspace_on_empty_buffer_is_a_noop() {
    let mut form = Form::from_names(vec!["Account".to_string()]);
    form.select(FormSelection::Active(0));
    form.input(Key::Backspace);
    assert_eq!(values_of(&form), vec![""]);
    form.input(Key::Char('a'));
    form.input(Key::Backspace);
    form.input(Key::Backspace);
    assert_eq!(values_of(&form), vec![""]);
}

#[test]
fn editing_without_an_active_field_is_a_noop() {
    let mut form = Form::from_names(names3());
    form.append_selection('a');
    form.pop_selection();
    assert_eq!(values_of(&form), vec!["", "", ""]);
    form.select(FormSelection::Hovered(1));
    form.append_selection('a');
    assert_eq!(values_of(&form), vec!["", "", ""]);
}

#[test]
fn unrecognized_keys_are_ignored_in_both_modes() {
    let mut form = Form::from_names(names3());
    form.select(FormSelection::Hovered(1));
    form.input(Key::Other);
    form.input(Key::Char('q'));
    form.input(Key::Backspace);
    assert_eq!(*form.selected(), FormSelection::Hovered(1));
    assert_eq!(values_of(&form), vec!["", "", ""]);
    form.select(FormSelection::Active(1));
    form.input(Key::Other);
    assert_eq!(*form.selected(), FormSelection::Active(1));
    assert_eq!(values_of(&form), vec!["", "", ""]);
}

#[test]
fn escape_deselects_and_deselect_is_unconditional() {
    let mut form = Form::from_names(names3());
    form.select(FormSelection::Hovered(2));
    form.input(Key::Esc);
    assert_eq!(*form.selected(), FormSelection::NoSelection);
    form.select(FormSelection::Active(1));
    form.deselect();
    assert_eq!(*form.selected(), FormSelection::NoSelection);
}

#[test]
fn submitted_flag_can_be_cleared_again() {
    let mut form = Form::from_names(vec!["Account".to_string()]);
    form.submit();
    assert!(!form.status()[0].is_valid());
    form.submitted(false);
    assert!(form.status()[0].is_valid());
    form.submitted(true);
    assert!(!form.status()[0].is_valid());
}

#[test]
fn empty_form_operations_are_noops() {
    let mut form = Form::from_names(Vec::new());
    form.next_field();
    assert_eq!(*form.selected(), FormSelection::NoSelection);
    form.prev_field();
    assert_eq!(*form.selected(), FormSelection::NoSelection);
    form.input(Key::Enter);
    assert_eq!(*form.selected(), FormSelection::NoSelection);
    assert_eq!(form.status().len(), 0);
    assert_eq!(form.submit().len(), 0);
}

#[test]
fn default_form_is_empty() {
    let form: Form<tui_form::NonEmpty> = Form::default();
    assert_eq!(form.num_fields(), 0);
    assert_eq!(*form.selected(), FormSelection::NoSelection);
    assert_eq!(form.status().len(), 0);
}

#[test]
fn submit_freezes_nothing_but_the_flag() {
    // Submitting while a field is active keeps the selection and buffers.
    let mut form = Form::from_pairs(vec![("Account".to_string(), "alice".to_string())]);
    form.select(FormSelection::Active(0));
    let status = form.submit();
    assert!(status[0].is_valid());
    assert_eq!(*form.selected(), FormSelection::Active(0));
    assert_eq!(values_of(&form), vec!["alice"]);
}
