//! `subtile` is a library of operations on subtitles: decoding of the
//! Presentation Graphic Stream (`.sup`) bitmap subtitle format, the geometry
//! and timing types that go with it, and helpers for `VobSub` and `SubRip`.
//!
//! The functions of the library carry contracts over mathematical models of
//! their data, and the contracts are proved with Verus. The one function that
//! is believed without proof calls the `regex` crate, in [`vobsub::idx`].
#![allow(unused_imports)]

pub mod content;
pub mod errors;
pub mod image;
pub mod pgs;
pub mod srt;
pub mod time;
pub mod vobsub;

pub use content::{Area, AreaValues, ContentError, Size};
pub use errors::SubError;
