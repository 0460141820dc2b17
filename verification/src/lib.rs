//! Two small studies of ownership: a numeric buffer that is created in one
//! place, lent out through a shared borrow and released when its owner's scope
//! ends, and a text that is moved into the function that measures it.
//!
//! The functions here only compute; whoever calls them does the printing.

pub mod buffer;
pub mod text;

pub use buffer::{create_large_array, process_data, LARGE_ARRAY_CAPACITY};
pub use text::calculate_length;
