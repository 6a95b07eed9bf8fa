//! Core of a gateway that turns text into delivered audio or generated
//! answers through interchangeable upstream providers. It holds no I/O: the
//! caller makes the calls that the library names and hands back what came
//! of them.
//!
//! - `quota`: the tiers of callers, the daily limits and the usage ledger.
//! - `cache`: content-addressed keys and the store with a time to live.
//! - `provider`: the closed set of providers and the chain of alternates.
//! - `adapter`, `poller`, `encoding`: an attempt on one provider, step by
//!   step, the bounded polling of a job, and the HTTP form of each call.
//! - `dispatch`: which provider is tried when, and when to give up.
//! - `gateway`: the life of a request from quota to cache write.
//! - `catalog`: the voices of the configured providers, in order.
//! - `podcast`, `analysis`, `requests`, `replies`, `site`: the features
//!   around the core.
//! - `codec`, `json`, `clock`, `text`: what is taken from outside crates
//!   and from the standard library, and text primitives.

pub mod text;
pub mod clock;
pub mod codec;
pub mod json;
pub mod quota;
pub mod cache;
pub mod provider;
pub mod poller;
pub mod adapter;
pub mod encoding;
pub mod dispatch;
pub mod gateway;
pub mod catalog;
pub mod podcast;
pub mod analysis;
pub mod requests;
pub mod replies;
pub mod site;
