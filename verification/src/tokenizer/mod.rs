pub mod keyword;
pub mod modifier;
pub mod meta;
pub mod metadata;
pub mod token;
pub mod tokenizer_error;
pub mod chorddown_tokenizer;
pub mod chord_down_tokenizer;
pub mod mode;
pub mod chord_pro_tokenizer;
