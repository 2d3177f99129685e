//! The core of a client for the SearXNG search API, with machine-checked
//! contracts.
//!
//! A search goes through three stages, and this crate is the part of each
//! that can be reasoned about:
//!
//! * [`client`] gathers the parameters of a search and lays out the request
//!   that carries them: address, header and form fields.
//! * [`decode`] turns the payload of one page into a [`SearchResponse`].
//!   Each element of its results is told to be of the legacy or of the main
//!   shape by the rules in [`shape`]; an element that is of neither fails
//!   the page rather than losing fields.
//! * [`paging`] decides, page by page, how a run that is to gather a given
//!   number of results goes on: which page to ask for, when to ask again,
//!   and when to stop.
//!
//! Nothing here touches the network. The caller sends the requests and
//! hands back what arrived.
//!
//! Every executable function is verified against its contract. The
//! contracts are written over models, values that are made of sequences and
//! numbers only; each type has a view onto its model. What is taken on
//! trust is marked as such where it stands: that `serde_json` reads JSON,
//! `chrono` dates, `iso8601` durations and `language_tags` language tags in
//! a way that depends on the text alone, and that the few methods of
//! `smallvec` and of `serde_json::Value` that are called do what their
//! documentation says.

pub mod client;
pub mod decode;
pub mod fields;
pub mod json;
pub mod language;
pub mod paging;
pub mod response;
pub mod shape;
pub mod small;
pub mod text;
pub mod time;

pub use client::{ResponseFormat, SearXNGClient};
pub use response::SearchResponse;
