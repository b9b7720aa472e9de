//! The logic behind a small GPUI playground: a greeting, a row of colour swatches,
//! a numbered, clickable list, and a drag-and-drop target that takes on the colour
//! of the item dropped on it.
pub mod decimal;
pub mod drag_drop;
pub mod labels;
pub mod palette;
pub mod root_view;
