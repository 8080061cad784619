//! Markdown to HTML, with fenced code blocks and math handed to pluggable
//! renderers while the token stream is pulled.
//!
//! A document goes through the tokenizer, then through the event transformer
//! of [`iter`], then through the serializer. The transformer lets every event
//! through as it came, but for fenced code blocks and math: where a renderer
//! is set for them, the events of one span are swallowed and a single HTML
//! event takes their place. The renderer is a callback of the caller's, or
//! one of the two engines of [`highlight`] and [`math`].
//!
//! [`render`] renders whole documents, one or a batch; [`theme`] gives the
//! stylesheet that goes with highlighted code; [`options`] holds what a
//! caller configures and [`error`] what can go wrong. [`markdown`] is the
//! boundary with the tokenizer and the serializer, [`escape`] the escaping
//! of text for HTML.

pub mod error;
pub mod escape;
pub mod highlight;
pub mod iter;
pub mod markdown;
pub mod math;
pub mod options;
pub mod render;
pub mod text;
pub mod theme;
