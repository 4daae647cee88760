//! Error taxonomy of the pipeline.
//!
//! Missing bundles and undeclared icons are not errors: they fall back to the
//! system default icon and never reach these types.

use vstd::prelude::*;

verus! {

/// Why resolving a bundle to an icon source file failed.
#[derive(Clone, Copy, Debug, PartialEq, Eq, Structural)]
pub enum ResolveError {
    /// The bundle exists but its descriptor file could not be read or parsed.
    UnreadableDescriptor,
    /// The descriptor parsed, but its top-level value is not a dictionary.
    MalformedDescriptor,
    /// The descriptor declares an icon, but none of the candidate files for
    /// it exists.
    NoIconFound,
}

/// Why converting an icon source into PNG bytes failed.
#[derive(Clone, Copy, Debug, PartialEq, Eq, Structural)]
pub enum ConvertError {
    /// The bytes do not decode as an ICNS icon container.
    ContainerDecode,
    /// The container decoded, but holds none of the preferred icon kinds.
    NoSuitableIcon,
    /// The bytes do not decode as a raster image, or re-encoding the decoded
    /// image as PNG failed.
    RasterCodec,
}

} // verus!
