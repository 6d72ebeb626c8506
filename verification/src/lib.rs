//! Client library for the Danbooru image-board REST API.
//!
//! A fluent [`client::DanbooruClientBuilder`] accumulates tag filters, a
//! result limit and optional credentials, and renders them into the query
//! dialect the remote API expects. The rendering is fully specified: the
//! final query string is the space-joined sequence of tokens in the exact
//! order they were added.

pub mod client;
pub mod laws;
pub mod model;
pub mod text;
