//! Helpers for a clipboard history: relative-time labels for entries and
//! decoding of Base64-encoded images into RGBA pixel buffers.

pub mod digits;
pub mod relative_time;
pub mod image_data;

pub use image_data::{b64_to_img_data, B64ImageError, PixelBuffer};
pub use relative_time::{humanize_time, humanize_time_at, Timestamp};
