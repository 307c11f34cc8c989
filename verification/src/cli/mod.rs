//! The three commands: what each decides between its registry calls.
pub mod check;
pub mod compare;
pub mod scan;
