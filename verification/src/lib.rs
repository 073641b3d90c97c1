//! The core of a terminal text editor: commands, the components that handle
//! them, and the rules by which a command travels through the component tree.
//!
//! Nothing here touches the terminal, the file system or a clock. A component
//! that needs outside work says so in its [`runtime::Outbox`]; the program
//! around the library does the work and hands the outcome back.

// Commands, results and what handlers leave for the runtime.
pub mod action;
pub mod component;
pub mod runtime;

// Texts, characters and paths.
pub mod chars;
pub mod paths;
pub mod text;

// Configuration and key bindings.
pub mod bindings;
pub mod config;
pub mod keybindings;

// Overlays.
pub mod confirm_dialog;
pub mod help;
pub mod notification;
pub mod search_box;

// The file dialogs.
pub mod file_history;
pub mod file_history_saver;
pub mod file_selector;
pub mod path_child;
pub mod preview;
pub mod selector_input;

// The screens and what holds them.
pub mod app;
pub mod buffer;
pub mod editor;
pub mod home;
pub mod navigator;

// Work at the edge: reading and writing files, the terminal.
pub mod files;
pub mod save;

// What holds of the library as a whole.
pub mod laws;
