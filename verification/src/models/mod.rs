pub mod b_notation;
pub mod chord;
pub mod structure;
