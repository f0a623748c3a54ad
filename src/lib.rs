//! Normalisation of raw framebuffer captures into canonical RGB / RGBA
//! buffers, and compositing of a pointer sprite onto them.
pub mod backend;
pub mod capture;
pub mod ocr;
pub mod overlay;

pub use backend::{CaptureData, DisplayError, DisplayResult, PixelFormat};
