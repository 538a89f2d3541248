//! Read functionalities for Presentation Graphic Stream (.sup)
//!
//! A stream is a sequence of segments, each behind a 13-byte header. The
//! decoders of this module walk a byte source segment by segment and put
//! together, for each subtitle, its time span and, if asked, its image.
pub mod decoder;
pub mod ods;
pub mod pds;
pub mod pgs_image;
pub mod reader;
pub mod segment;

pub use decoder::{
    spec_held_image, spec_image, spec_nothing_held, spec_palette, spec_time, spec_time_image,
    spec_time_only, DecodeTimeImage, DecodeTimeOnly, DisplaySet, PgsDecoder, SegmentProcessor,
};
pub use ods::{
    LastInSequenceFlag, ObjectDefinition, ObjectDefinitionSegment, ObjectDefinitionSegmentView,
    ObjectDefinitionView,
};
pub use pds::{Palette, PaletteDefinitionSegment, PaletteEntry};
pub use pgs_image::{
    decode_rle, pixel_pass_through, spec_code, spec_colors, spec_decode, spec_decode_from, RleCode,
    RleEncodedImage, RleEncodedImageView, RleError,
};
pub use reader::{
    be_u16, be_u24, be_u32, be_value, read_vec, unread_from, ReadExt, SliceReader,
};
pub use segment::{
    begins_with_magic, parse_segment_header, read_header, skip_segment, spec_first_segment,
    spec_frame, spec_header, spec_parse_header, spec_segments, spec_type_code, SegmentBuf,
    SegmentBufError, SegmentHeader, SegmentSplitter, SegmentSplitterError, SegmentTypeCode,
    BUF_HEADER_LEN, HEADER_LEN, MAGIC_NUMBER,
};

use vstd::prelude::*;

verus! {

/// Error for `Pgs` handling.
#[derive(Debug, Clone, Copy, PartialEq, Eq, Structural)]
pub enum PgsError {
    /// Encapsulates errors from `Object Definition Segment` parsing.
    ODSParse(ods::Error),
    /// Encapsulates errors from `Palette Definition Segment` parsing.
    PDSParse(pds::Error),
    /// Invalid segment type code value.
    SegmentInvalidTypeCode {
        /// Value tried to be interpreted in Segment Type.
        value: u8,
    },
    /// An error occurred during Segment Header reading: the source ended
    /// inside a header.
    SegmentFailReadHeader,
    /// Missing expected `PG` Magic number.
    SegmentPGMissing,
    /// `ReadError` occurred during skipping the segment.
    SegmentSkip {
        /// Parent `ReadError`
        source: ReadError,
        /// type code of the segment we skip
        type_code: SegmentTypeCode,
    },
    /// Error if image is missing to complete the parsing of a subtitle.
    MissingImage,
    /// Palette is missing after image parsing.
    MissingPalette,
}

/// Error from data read for parsing.
#[derive(Debug, Clone, Copy, PartialEq, Eq, Structural)]
pub enum ReadError {
    /// Reading of the buffer have failed: the source holds fewer bytes.
    FailedReadBuffer {
        /// size of the buffer
        buffer_size: usize,
    },
    /// An error has occurred during buffer filling from reader. A source that
    /// lies in memory never gives it.
    FailedFillBuf,
    /// An error has occurred during seek in reader: the new position cannot be
    /// represented.
    FailedSeek,
}

} // verus!
