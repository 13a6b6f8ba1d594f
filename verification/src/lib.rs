//! A static site generator for Gemini capsules: the build pipeline.
//!
//! The library turns the documents of a content tree into a capsule:
//! gemtext pages, the two index pages, one page for each tag, and the
//! feeds. It never touches the file system. The program around it reads
//! the sources, hands them over as plain values and writes what comes back.
//!
//! The modules, from the leaves up:
//!
//! - [`text`]: trimming, decimal numbers, substitution.
//! - [`time`]: the time of publication and its timestamp.
//! - [`error`]: what can go wrong.
//! - [`urls`]: URLs as text, with the url crate behind them.
//! - [`config`]: the capsule's settings.
//! - [`link`]: links and how a document gets its own.
//! - [`frontmatter`]: the frame of a source document.
//! - [`content`]: metadata, pages and where their sources are kept.
//! - [`footer`], [`render`]: the footer and the page renderer.
//! - [`capsule`]: the posts by timestamp and the links by tag.
//! - [`index`], [`tags`], [`feed`]: what is rendered from the whole capsule.
//! - [`walk`]: the walk over the content tree and what follows it.
//! - [`tinylog`]: the page of short notes.
//! - [`laws`]: what holds of every build.

pub mod capsule;
pub mod config;
pub mod content;
pub mod error;
pub mod feed;
pub mod footer;
pub mod frontmatter;
pub mod index;
pub mod laws;
pub mod link;
pub mod render;
pub mod tags;
pub mod text;
pub mod time;
pub mod tinylog;
pub mod traits;
pub mod urls;
pub mod walk;

pub use error::Error;
pub use footer::write_footer;
pub use traits::{GetPath, ToDisk};
