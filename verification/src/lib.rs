//! Normalized cross-correlation of two images, or of one rectangular region
//! taken from each of them.
//!
//! The crate keeps every quantity an exact integer: a comparison yields the
//! three sums from which the score `nom / sqrt(sq1 * sq2)` is formed, and the
//! caller takes the final quotient.

pub mod cli;
pub mod correlate;
pub mod pixel;
pub mod raster;
pub mod region;
pub mod text;
pub mod theory;
pub mod window;

pub use cli::{decide, interpret, usage, Command, Parsed};
pub use correlate::{compare, correlate, BoundsError, Sums};
pub use pixel::Pixel;
pub use raster::Image;
pub use region::{resolve, Rectangle};
pub use text::parse_rectangle;
pub use window::Window;
