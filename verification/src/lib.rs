//! A safety layer over a foreign raw-image decoding engine.
//!
//! The engine owns all pixel memory and reports failures through integer
//! status codes and the process-global OS error number.  This crate holds the
//! verified side of that bridge: the unified error model, the modeled image
//! handle with its mutually exclusive buffer shapes, bounds-checked pixel
//! views with position-derived coordinates, and the packed version value.

#![allow(unused_imports)]

mod error;
mod image;
mod version;

pub use error::{
    attribute_open_status, error_string, from_raw_os_error, validate_path_bytes, Error,
    OpenStatus, Repr, EINVAL, ENGINE_IO_ERROR, ENGINE_SUCCESS, ENOMEM,
};
pub use image::{
    buffer_shape, Color3Pixel, Color4Pixel, Image, ImageData, Pixel, PixelType, Pixels, Pixmap,
    RawPixel,
};
pub use version::Version;
