//! Navigation state machines for the interactive pages: a 1D cyclic
//! selector with a chosen starting point, and a 2D selector over a ragged
//! grid of rows.

pub mod conference_list;
pub mod input_field;
pub mod selector;
pub mod selector_2d;
