//! Reply controls of a chat-bot messaging protocol and their wire documents.
//!
//! A reply control is attached to an outgoing message: a grid of inline
//! buttons, a custom text keyboard, or a directive that hides the keyboard
//! or forces a reply. Each control encodes into one JSON object whose keys
//! are fixed by the protocol. Optional keys that hold their default are left
//! out of the object rather than written with that default.

pub mod directive;
pub mod document;
pub mod inline;
pub mod json;
pub mod keyboard;
pub mod markup;
