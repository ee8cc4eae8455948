//! A browser served to agents as tools: which page a request means, what is asked
//! of the browser and when, what is remembered of a page, and what the client is
//! told. The browser itself, the files and the transport are the caller's.
//!
//! A tool call starts at one of the `browser_*` methods of [`pages::State`] in
//! [`server`] and goes on with `resume` until it ends in a reply or a refusal.

pub mod answer;
pub mod calls;
pub mod diff;
pub mod exchanges;
pub mod fingerprint;
pub mod json;
pub mod launch;
pub mod laws;
pub mod network;
pub mod pages;
pub mod protocol;
pub mod requests;
pub mod results;
pub mod rules;
pub mod server;
pub mod storage;
pub mod text;
