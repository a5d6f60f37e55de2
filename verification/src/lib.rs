//! Naming of academic-paper PDF files after their first author, year and title.
//!
//! The crate holds the rules of the tool: how a file name is built from a
//! paper's metadata and when a name is safe to use, the dialogue in which the
//! user accepts, edits or rejects a proposed name, and the decisions taken
//! around the model service, the extracted text and the final rename. Every
//! function carries a contract over sequences of characters.

pub mod confirm;
pub mod error;
pub mod filename;
pub mod llm;
pub mod pdf;
pub mod renamer;
pub mod text;
pub mod ui;
