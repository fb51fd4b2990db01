pub mod color;
pub mod error;
pub mod decode;
pub mod image;
pub mod laws;
pub mod render;

pub use color::ColorType;
pub use error::TpngError;
pub use image::Image;
