//! Feed synchronisation engine with machine-checked contracts.
//!
//! The engine keeps registered feeds in sync with their destinations: it
//! decides which entries of a fetched feed are new, what is shown for them,
//! and how the checks of many feeds are run side by side. Fetching and
//! parsing a document, the registry and the clock are left to the caller,
//! who hands over what was read and follows the steps the engine asks for.
//!
//! - [`normalizer`], [`entity`]: markup to plain text, and shortening for
//!   display.
//! - [`fingerprint`], [`recency`], [`detector`], [`memory`]: which entries
//!   are new.
//! - [`publisher`]: the payload of an entry, and the retry policy.
//! - [`run`]: the check of one feed, step by step.
//! - [`cycle`]: one pass over all feeds, with single flight and bounded
//!   concurrency.
//! - [`fetch`], [`registration`], [`paging`], [`outcome`]: the rules around
//!   them.
//! - [`text`], [`pattern`], [`instant`], [`link`], [`model`]: what the others
//!   are built on.

pub mod cycle;
pub mod detector;
pub mod entity;
pub mod fetch;
pub mod fingerprint;
pub mod instant;
pub mod link;
pub mod memory;
pub mod model;
pub mod normalizer;
pub mod outcome;
pub mod paging;
pub mod pattern;
pub mod publisher;
pub mod recency;
pub mod registration;
pub mod run;
pub mod text;
