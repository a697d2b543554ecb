//! Verified core of an interactive serial-port terminal session: a
//! codepoint-aware line editor, wrap-around selection lists, a command
//! tokenizer and dispatcher, the receive buffer, the connection session and
//! the mode state machine that routes keys between panels.

pub mod key;
pub mod text;
pub mod text_input;
pub mod selectable_list;
pub mod command;
pub mod action;
pub mod receive_text;
pub mod components;
pub mod session;
pub mod engine;
