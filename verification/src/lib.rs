//! Storage, decoding and selection of Gaussian splat clouds.
//!
//! Every scalar attribute is carried as the IEEE-754 binary32 bit pattern of
//! its value, held in a `u32`. The library moves, reorders and compares these
//! patterns exactly; it never does arithmetic on the numbers they stand for.

pub mod gaussian;
pub mod io;
pub mod material;
pub mod query;
pub mod render;

pub use gaussian::cloud::{GaussianCloud, GaussianIter, PositionIter};
pub use gaussian::packed::{Gaussian, PositionVisibility, Rotation, ScaleOpacity};
pub use gaussian::settings::{DrawMode, GaussianMode, PlaybackMode, RasterizeMode};
pub use io::codec::DecodeError;
pub use io::loader::{CloudFormat, Gaussian3dLoader, GaussianCloudLoader, LoadError};
pub use io::ply::{parse_ply, PlyError};
pub use material::spherical_harmonics::SphericalHarmonicCoefficients;
pub use query::sparse::SparseSelect;
pub use render::{shader_defs, CloudPipelineKey, ShaderDefVal, ShaderDefines};
