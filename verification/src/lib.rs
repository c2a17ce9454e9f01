//! Turns untrusted Markdown or HTML text into HTML that is safe to embed in a
//! page, optionally filling `{name}` placeholders first.
//!
//! [`sanitizer::sanitize`] renders a text as Markdown and sanitizes the HTML
//! under an allow-list of tags and attributes; [`sanitizer::template`] fills
//! the placeholders of the raw text before that. [`query::query`] decides for
//! a request which text is meant and what has to be fetched for it.
//!
//! Rendering is done by `pulldown-cmark` and sanitizing by `ammonia`. What
//! this library trusts of the two is stated in [`markdown`] and [`builder`].
//! Beside that it trusts `String::push` of std. Everything else is proved.

pub mod assets;
pub mod builder;
pub mod markdown;
pub mod policy;
pub mod query;
pub mod sanitizer;
pub mod text;
pub mod types;
pub mod variables;
