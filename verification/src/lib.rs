//! Verified state models for the widgets of a small reactive page: counters
//! and progress bars, a keyed list, form inputs, a toggle, a numeric field
//! with its error boundary, composed lists, and the route table.
//!
//! Every type here is plain data. A user interface holds one value per
//! widget, calls a method for each event, and renders what the accessors
//! return. What a method does is stated in its contract and proved.

pub mod composition;
pub mod counter;
pub mod inputs;
pub mod items;
pub mod numeric;
pub mod params;
pub mod routes;
pub mod text;

pub use composition::{list_items, parent_element, static_labels, ListItem, ParentElement};
pub use counter::{Counter, Progress};
pub use inputs::{ControlledInput, Toggle, UncontrolledInput};
pub use items::{Item, ItemList};
pub use numeric::{parse_numeric, Boundary, NumericInput, ParseFailure};
pub use routes::{
    display_name, redirect_target, resolve, user_id, user_label, Page, RouteMatch, UsersView,
};
