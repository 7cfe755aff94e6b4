//! Turns an ordered list of audio files into a podcast syndication feed and
//! publishes the feed and its media files to a public storage container.
//!
//! The crate is split along the two halves of that job: [`feed`] builds the
//! in-memory channel model and serializes it, and [`upload`] provisions the
//! container and writes the objects.  [`encoding`] holds the URL escaping
//! shared by both, and [`text`] the small string utilities.

pub mod encoding;
pub mod feed;
pub mod text;
pub mod upload;
