//! The terminal interface's logic: its pages, how keys move between them,
//! and what each page shows. Drawing and the work a key asks for are done by
//! the program around the library.
pub mod pages;
pub mod state;
pub mod view;
pub mod panels;
pub mod output;
pub mod node_test;
pub mod groups;
