//! Helpers for DVD subtitles in `VobSub` format. These are typically stored as
//! two files: an `*.idx` file summarizing the subtitles, and an MPEG-2 Program
//! Stream containing the actual subtitle packets.
pub mod idx;
pub mod modifier;
pub mod palette;
pub mod probe;

pub use idx::{
    apply_key_value, key_value, read_palette, regex_captures, spec_apply_groups,
    spec_groups, spec_key_value, spec_read_palette, IdxFault, Index, KEY_VALUE,
};
pub use palette::{
    hex_value, palette, spec_hex_value, spec_palette, spec_rgb, Palette, PaletteFault, Rgb,
    PALETTE_TEXT_LEN,
};
pub use modifier::DataAccessor;
pub use probe::{has_magic, is_idx_file, is_sub_file, IDX_MAGIC, SUB_MAGIC};
