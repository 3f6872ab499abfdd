//! An interactive form component for terminal user interfaces: a named
//! sequence of labeled text fields that a user can navigate, edit, validate
//! on submission, and inspect through hover/active/invalid visual states.
//!
//! The crate is split in two: [`form`] owns the form state machine
//! (selection, text buffers, submission and validation), and [`widget`]
//! projects that state onto per-field visual descriptors and draws them
//! through the `ratatui` rendering primitives.

mod tui;

pub mod form;
pub mod widget;

pub use form::{Field, FieldStatus, Form, FormSelection, Key, NonEmpty, Validator};
pub use widget::{FieldRenderType, FieldView, Renderer};
