//! Extraction of the best-available application icon from a macOS
//! application bundle, emitted as PNG bytes.
//!
//! The crate is organised as a short pipeline with one decision fork:
//!
//! * [`resolve`] walks a bundle's layout and decides which icon source file
//!   to decode, as a step machine whose filesystem questions are answered by
//!   the caller;
//! * [`metadata`] interprets the bundle's property-list descriptor and finds
//!   the declared icon resource name;
//! * [`selector`] decodes an ICNS icon container and picks the
//!   highest-quality representation along a fixed preference order;
//! * [`raster`] re-encodes a TIFF (or any raster) icon source as PNG;
//! * [`invocation`] validates the two positional command-line arguments;
//! * [`errors`] holds the failure taxonomy of both stages;
//! * [`laws`] states and proves the properties that span several of these
//!   components.

pub mod errors;
pub mod invocation;
pub mod laws;
pub mod metadata;
pub mod raster;
pub mod resolve;
pub mod selector;
