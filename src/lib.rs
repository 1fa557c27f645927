//! Clipboard history: a deduplicated store of captured texts, a phonetic
//! matcher over them, and the search and selection state of the picker.

pub mod config;
pub mod pinyin;
pub mod search;
pub mod text;
