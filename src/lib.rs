//! Descriptor-level logic for tensors whose storage belongs to a native
//! inference runtime: pixel-format codes, the shape and stride model of a
//! container, bounds-checked flat and per-channel indexing, and the argument
//! checks that guard pixel ingestion and per-channel normalization.
//!
//! Nothing here touches the native buffer. A caller reads a container's
//! descriptor into a [`MatShape`], asks this crate whether an access is
//! admissible and where it lands, and only then performs it.
pub mod error;
pub mod ingest;
pub mod pixel;
pub mod shape;
pub mod view;

pub use error::MatError;
pub use ingest::{plan_from_pixels, plan_from_pixels_resize, PixelDecode, ResizeDecode};
pub use pixel::MatPixelType;
pub use shape::MatShape;
pub use view::ChannelView;
