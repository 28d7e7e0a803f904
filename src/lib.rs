//! Typed keys for `actix_session::Session`: each key fixes the type of the
//! value stored under it, and the typed accessors forward to the session.
pub mod ext;
pub mod key;
pub mod store;

pub use ext::SessionExt;
pub use key::SessionKey;
