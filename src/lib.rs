//! Token-lifecycle event indexing: recognises standard token events in
//! contract logs and plans the store and notification effects they cause.

pub mod json;
pub mod text;
pub mod hash;
pub mod events;
pub mod retry;
pub mod enums;
pub mod metadata;
pub mod token;
pub mod effects;
pub mod handlers;
pub mod outcomes;
pub mod index;
pub mod codec;
pub mod records;
