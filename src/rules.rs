//! Rule words: the vocabulary of rules that can be laid out as text blocks
//! in a level. Nothing evaluates them yet.

pub mod noun;
pub mod operator;
pub mod property;
pub mod statement;
pub mod text;
pub mod word;
