//! Construction of WebSocket endpoint URLs for opening sessions against a
//! Qlik Sense engine.
//!
//! The central type is [`UrlBuilder`]: a configuration that is filled in by
//! setter calls and finalized by [`UrlBuilder::build`], which composes the
//! URL string in a fixed order and validates it against the URI grammar.

pub mod build_url;
pub mod encoding;
pub mod hypercube_def;
pub mod trim;
mod url_check;

pub use build_url::InvalidUrlError;
pub use build_url::UrlBuilder;
