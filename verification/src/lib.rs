//! Supervision of proxy process pairs: a quoting-aware command-line tokenizer,
//! layered launch-configuration resolution and a registry of running instances.

pub mod config;
pub mod error;
pub mod expand;
pub mod helper;
pub mod manager;
pub mod proxy;
pub mod server;
pub mod shell;
pub mod split_laws;
pub mod splitted;
pub mod ss;
pub mod text;
