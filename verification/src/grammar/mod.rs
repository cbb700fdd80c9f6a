//! The grammars of the manifest's string fields, each as a predicate on a
//! sequence of characters and a matcher that decides it.

pub mod name;
pub mod package_manager;
pub mod version;
pub mod web;
pub mod words;
