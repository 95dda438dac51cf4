//! Forward-only migration of a library's configuration document.
//!
//! The document is a JSON object carrying a `version` field. Each version
//! number has one step that brings a document (and the rows of the library's
//! relational store that go with it) from the previous version to that one.
//! Steps that talk to the store are written as state machines: the caller
//! performs each requested store action and hands back what happened.
pub mod backfill;
pub mod config;
pub mod document;
pub mod encoding;
pub mod migration;
pub mod run;
pub mod steps;
