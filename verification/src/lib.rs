//! The core of an HTTP gateway that uploads, lists and deletes images in a
//! cloud object store: how a multipart field becomes a storage key, how the
//! pages of a store listing become one ordered sequence of images, and how
//! every outcome becomes a `{data, error}` envelope with its status.
//!
//! The library performs no I/O. A handler reads from its request and from the
//! store, hands each thing it read to the library, and carries out what the
//! library answers: a store call to make, or the reply to send.
//!
//! - [`model`]: configuration, requests, images and envelopes.
//! - [`key`]: sanitized file names, timestamps and storage keys.
//! - [`upload`]: the upload handler's steps.
//! - [`listing`]: the list handler's steps.
//! - [`service`]: public URLs, error texts, delete and liveness.
//! - [`foreign`]: the calls into other crates, with the contracts that are
//!   taken on trust.

pub mod foreign;
pub mod key;
pub mod listing;
pub mod model;
pub mod service;
pub mod upload;
