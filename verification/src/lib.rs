pub mod text;
pub mod error;
pub mod models;
pub mod tokenizer;
pub mod repeat_detector;
pub mod parser;
