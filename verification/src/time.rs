//! Points in time and spans between them, in milliseconds.
pub mod time_point;
pub mod time_span;

pub use time_point::{
    decimal, digit_char, div_toward_zero, padded, push_decimal, rem_toward_zero, time_text,
    TimePoint,
};
pub use time_span::TimeSpan;
