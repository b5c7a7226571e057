//! A single-line editable text-box widget core for a retained-mode UI.
//!
//! The crate verifies the widget's internal logic: the focus state machine,
//! the character-input reducer that edits the value and produces change
//! notifications, the layout probe that decides whether a caret can be
//! placed, the style composer with its fixed merge precedence, and the
//! construction of the declarative render tree. The surrounding framework
//! (widget-tree diffing, the layout solver, font rasterisation) is outside
//! this crate; it hands the widget plain values and receives plain values
//! back.

pub mod edit;
pub mod events;
pub mod focus;
pub mod probe;
pub mod render;
pub mod style;
pub mod widget;

pub use edit::is_backspace;
pub use events::{ChangeEvent, OnChange};
pub use focus::Focus;
pub use widget::TextBoxProps;
