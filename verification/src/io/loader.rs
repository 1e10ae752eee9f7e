//! Choosing the decoder of a cloud by the extension of its file name.

use vstd::prelude::*;
use crate::gaussian::cloud::GaussianCloud;
use crate::gaussian::packed::{Gaussian, Splat};
use crate::io::codec::{decoded, DecodeError};
use crate::io::ply::{parse_ply, parsed, splats, PlyError};

verus! {

/// The formats that a cloud can be loaded from.
#[derive(Clone, Copy, Debug, PartialEq, Eq)]
pub enum CloudFormat {
    /// The point-cloud exchange format, extension `ply`.
    Ply,
    /// The compact binary format, extension `gcloud`.
    Gcloud,
}

/// Why a cloud could not be loaded.
#[derive(Clone, Copy, Debug, PartialEq, Eq)]
pub enum LoadError {
    /// The extension names no supported format.
    UnsupportedExtension,
    /// The file is in the exchange format and could not be decoded.
    Ply(PlyError),
    /// The file is in the binary format and could not be decoded.
    Decode(DecodeError),
}

impl LoadError {
    /// A format error: the extension is not known, or a header is
    /// malformed. Every other error is a decode error.
    pub open spec fn spec_is_format_error(self) -> bool {
        self == LoadError::UnsupportedExtension || self == LoadError::Ply(
            PlyError::MalformedHeader,
        )
    }

    #[verifier::when_used_as_spec(spec_is_format_error)]
    pub fn is_format_error(self) -> (b: bool)
        ensures
            b == self.spec_is_format_error(),
    {
        match self {
            LoadError::UnsupportedExtension => true,
            LoadError::Ply(PlyError::MalformedHeader) => true,
            _ => false,
        }
    }

    /// What to tell a reader of the error.
    pub open spec fn message_text(self) -> Seq<char> {
        match self {
            LoadError::UnsupportedExtension => "only .ply and .gcloud supported"@,
            LoadError::Ply(PlyError::MalformedHeader) => "malformed ply header"@,
            LoadError::Ply(PlyError::MissingVertexElement) => "ply file has no vertex element"@,
            LoadError::Ply(PlyError::MalformedPayload) => "malformed ply payload"@,
            LoadError::Decode(DecodeError::Compression) => "truncated or corrupt gcloud stream"@,
            LoadError::Decode(DecodeError::Layout) => "gcloud stream does not hold a cloud"@,
            LoadError::Decode(DecodeError::LengthMismatch) => "gcloud columns differ in length"@,
        }
    }

    /// The message of the error.
    pub fn message(self) -> (text: &'static str)
        ensures
            text@ == self.message_text(),
    {
        match self {
            LoadError::UnsupportedExtension => "only .ply and .gcloud supported",
            LoadError::Ply(PlyError::MalformedHeader) => "malformed ply header",
            LoadError::Ply(PlyError::MissingVertexElement) => "ply file has no vertex element",
            LoadError::Ply(PlyError::MalformedPayload) => "malformed ply payload",
            LoadError::Decode(DecodeError::Compression) => "truncated or corrupt gcloud stream",
            LoadError::Decode(DecodeError::Layout) => "gcloud stream does not hold a cloud",
            LoadError::Decode(DecodeError::LengthMismatch) => "gcloud columns differ in length",
        }
    }
}

/// The format that an extension names. Only `ply` and `gcloud` name one, in
/// exactly this spelling.
pub open spec fn format_of(extension: Option<Seq<char>>) -> Option<CloudFormat> {
    match extension {
        Some(text) => if text == "ply"@ {
            Some(CloudFormat::Ply)
        } else if text == "gcloud"@ {
            Some(CloudFormat::Gcloud)
        } else {
            None
        },
        None => None,
    }
}

/// The text of an extension, if there is one.
pub open spec fn extension_text(extension: Option<&str>) -> Option<Seq<char>> {
    match extension {
        Some(text) => Some(text@),
        None => None,
    }
}

/// Whether two texts are the same.
fn same_text(a: &str, b: &str) -> (same: bool)
    ensures
        same <==> a@ == b@,
{
    let left: String = a.to_owned();
    let right: String = b.to_owned();
    left == right
}

/// Picks the format for the extension of a file name, before any byte of the
/// file is looked at.
pub fn format_for_extension(extension: Option<&str>) -> (result: Result<CloudFormat, LoadError>)
    ensures
        match result {
            Ok(format) => format_of(extension_text(extension)) == Some(format),
            Err(e) => e == LoadError::UnsupportedExtension && format_of(extension_text(extension))
                is None,
        },
{
    match extension {
        Some(text) => {
            if same_text(text, "ply") {
                Ok(CloudFormat::Ply)
            } else if same_text(text, "gcloud") {
                Ok(CloudFormat::Gcloud)
            } else {
                Err(LoadError::UnsupportedExtension)
            }
        },
        None => Err(LoadError::UnsupportedExtension),
    }
}

/// What the bytes of a file in `format` load to: the splats of the cloud,
/// or the reason why there is none.
pub open spec fn loaded(format: CloudFormat, bytes: Seq<u8>) -> Result<Seq<Splat>, LoadError> {
    match format {
        CloudFormat::Ply => match parsed(bytes) {
            Ok(cloud) => Ok(cloud),
            Err(e) => Err(LoadError::Ply(e)),
        },
        CloudFormat::Gcloud => match decoded(bytes) {
            Ok(cloud) => Ok(cloud),
            Err(e) => Err(LoadError::Decode(e)),
        },
    }
}

/// What a file with the given extension loads to.
pub open spec fn loaded_by_extension(extension: Option<Seq<char>>, bytes: Seq<u8>) -> Result<
    Seq<Splat>,
    LoadError,
> {
    match format_of(extension) {
        Some(format) => loaded(format, bytes),
        None => Err(LoadError::UnsupportedExtension),
    }
}

/// Decodes the bytes of a file in a known format. A cloud from the exchange
/// format holds scale and opacity as the file stores them, a log-scale and a
/// logit: the caller has yet to take the exponential of each scale, clamped
/// to five about their mean, and the logistic function of the opacity.
pub fn load_format(format: CloudFormat, bytes: &[u8]) -> (result: Result<GaussianCloud, LoadError>)
    ensures
        match result {
            Ok(cloud) => loaded(format, bytes@) == Ok::<Seq<Splat>, LoadError>(splats(cloud@)),
            Err(e) => loaded(format, bytes@) == Err::<Seq<Splat>, LoadError>(e),
        },
{
    match format {
        CloudFormat::Ply => match parse_ply(bytes) {
            Ok(gaussians) => Ok(GaussianCloud::from_gaussians(gaussians)),
            Err(e) => Err(LoadError::Ply(e)),
        },
        CloudFormat::Gcloud => match GaussianCloud::decode(bytes) {
            Ok(cloud) => Ok(cloud),
            Err(e) => Err(LoadError::Decode(e)),
        },
    }
}

/// Decodes the bytes of a file whose name has the given extension. As with
/// `load_format`, a cloud from the exchange format holds scale and opacity
/// as the file stores them.
pub fn load_by_extension(extension: Option<&str>, bytes: &[u8]) -> (result: Result<
    GaussianCloud,
    LoadError,
>)
    ensures
        match result {
            Ok(cloud) => loaded_by_extension(extension_text(extension), bytes@) == Ok::<
                Seq<Splat>,
                LoadError,
            >(splats(cloud@)),
            Err(e) => loaded_by_extension(extension_text(extension), bytes@) == Err::<
                Seq<Splat>,
                LoadError,
            >(e),
        },
{
    match format_for_extension(extension) {
        Ok(format) => load_format(format, bytes),
        Err(e) => Err(e),
    }
}

/// Loads clouds from the exchange format and from the binary format.
#[derive(Clone, Copy, Debug, Default)]
pub struct Gaussian3dLoader;

impl Gaussian3dLoader {
    /// Loads the cloud that `bytes` hold, given the extension of the file
    /// name that they came from. A cloud from the exchange format holds
    /// scale and opacity as the file stores them, a log-scale and a logit:
    /// the caller has yet to take the exponential of each scale, clamped to
    /// five about their mean, and the logistic function of the opacity. A
    /// cloud from the binary format holds them as they were encoded.
    pub fn load(&self, bytes: &[u8], extension: Option<&str>) -> (result: Result<
        GaussianCloud,
        LoadError,
    >)
        ensures
            match result {
                Ok(cloud) => loaded_by_extension(extension_text(extension), bytes@) == Ok::<
                    Seq<Splat>,
                    LoadError,
                >(splats(cloud@)),
                Err(e) => loaded_by_extension(extension_text(extension), bytes@) == Err::<
                    Seq<Splat>,
                    LoadError,
                >(e),
            },
    {
        load_by_extension(extension, bytes)
    }

    /// The extensions that the loader takes.
    pub fn extensions(&self) -> (list: Vec<&'static str>)
        ensures
            list@.len() == 2,
            list@[0]@ == "ply"@,
            list@[1]@ == "gcloud"@,
            forall|extension: Option<Seq<char>>|
                format_of(extension) is Some <==> exists|i: int|
                    0 <= i < list@.len() && extension == Some(#[trigger] list@[i]@),
    {
        let mut list: Vec<&'static str> = Vec::new();
        list.push("ply");
        list.push("gcloud");
        proof {
            assert forall|extension: Option<Seq<char>>| format_of(extension) is Some implies exists|
                i: int,
            |
                0 <= i < list@.len() && extension == Some(#[trigger] list@[i]@) by {
                if extension.unwrap() == "ply"@ {
                    assert(extension == Some(list@[0]@));
                } else {
                    assert(extension == Some(list@[1]@));
                }
            }
        }
        list
    }
}

/// Loads clouds in packed form, one record per splat.
#[derive(Clone, Copy, Debug, Default)]
pub struct GaussianCloudLoader;

impl GaussianCloudLoader {
    /// Loads the splats that `bytes` hold, given the extension of the file
    /// name that they came from. Splats from the exchange format hold scale
    /// and opacity as the file stores them, a log-scale and a logit: the
    /// caller has yet to take the exponential of each scale, clamped to five
    /// about their mean, and the logistic function of the opacity. Splats
    /// from the binary format hold them as they were encoded.
    pub fn load(&self, bytes: &[u8], extension: Option<&str>) -> (result: Result<
        Vec<Gaussian>,
        LoadError,
    >)
        ensures
            match result {
                Ok(gaussians) => loaded_by_extension(extension_text(extension), bytes@) == Ok::<
                    Seq<Splat>,
                    LoadError,
                >(splats(gaussians@)),
                Err(e) => loaded_by_extension(extension_text(extension), bytes@) == Err::<
                    Seq<Splat>,
                    LoadError,
                >(e),
            },
    {
        match load_by_extension(extension, bytes) {
            Ok(cloud) => Ok(cloud.to_packed()),
            Err(e) => Err(e),
        }
    }

    /// The extensions that the loader takes.
    pub fn extensions(&self) -> (list: Vec<&'static str>)
        ensures
            list@.len() == 2,
            list@[0]@ == "ply"@,
            list@[1]@ == "gcloud"@,
    {
        Gaussian3dLoader.extensions()
    }
}

} // verus!
