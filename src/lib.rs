//! Ephemeral, uniquely named CouchDB databases for tests.
//!
//! The library holds the parts of a test fixture that can be stated and
//! proved: the fixture's configuration, the generation of collision-resistant
//! database names, the classification of the store's answers, and the two
//! state machines of the teardown protocol (the background watcher that
//! destroys the database and the owner that waits for it), together with the
//! laws that their combination obeys.
pub mod config;
pub mod naming;
pub mod signal;
pub mod store;
pub mod teardown;
