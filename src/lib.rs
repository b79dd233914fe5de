//! The input and timing core of a terminal task dashboard: key bindings resolved from
//! configuration text, and the decisions of the producer that merges terminal input with
//! a periodic tick into one ordered event stream.
pub mod event;
pub mod keyconfig;
pub mod settings;
pub mod terminal;
