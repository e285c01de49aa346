//! A verified core for an interactive blog-editing client.
//!
//! The client lists posts and comments fetched from a remote store, lets the
//! user pick an entry by its 1-based position, and deletes the entry through
//! the store's identifier. Everything that can be stated and proved lives
//! here: parsing the position token, validating it against the fetched list,
//! resolving it to the durable identifier, classifying the status code of a
//! write request, and dispatching a menu choice. The surrounding terminal and
//! network plumbing stays outside the library and hands it plain values.

pub mod menu;
pub mod outcome;
pub mod records;
pub mod resolver;
pub mod token;
