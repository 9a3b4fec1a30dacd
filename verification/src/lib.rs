//! A small credential-storage core: a passphrase generator with guaranteed
//! character-class coverage, an in-memory model of the credential store, and
//! the event protocol that synchronizes a background store worker with a UI
//! thread.

pub mod db;
pub mod gui;
pub mod password;
