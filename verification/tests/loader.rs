use gaussian_splatting::gaussian::cloud::GaussianCloud;
use gaussian_splatting::gaussian::packed::Gaussian;
use gaussian_splatting::io::codec::DecodeError;
use gaussian_splatting::io::loader::{
    format_for_extension,
    load_by_extension,
    load_format,
    CloudFormat,
    Gaussian3dLoader,
    GaussianCloudLoader,
    LoadError,
};
use gaussian_splatting::io::ply::PlyError;
use std::path::Path;

const PLY: &str = "ply\nformat ascii 1.0\nelement vertex 1\nproperty float x\nproperty float y\n\
                   property float z\nend_header\n1 2 3\n";

fn extension(name: &str) -> Option<&str> {
    Path::new(name).extension().and_then(|e| e.to_str())
}

fn point() -> Gaussian {
    let mut g = Gaussian::default();
    g.position_visibility.position = [1.0f32.to_bits(), 2.0f32.to_bits(), 3.0f32.to_bits()];
    g.position_visibility.visibility = 1.0f32.to_bits();
    g
}

#[test]
fn loader_dispatch() {
    assert_eq!(format_for_extension(extension("scene.xyz")), Err(LoadError::UnsupportedExtension));
    assert_eq!(format_for_extension(extension("scene.ply")), Ok(CloudFormat::Ply));
    assert_eq!(format_for_extension(extension("scene.gcloud")), Ok(CloudFormat::Gcloud));
    assert_eq!(format_for_extension(extension("scene")), Err(LoadError::UnsupportedExtension));
    assert_eq!(format_for_extension(extension("scene.PLY")), Err(LoadError::UnsupportedExtension));
    assert_eq!(format_for_extension(extension("ply")), Err(LoadError::UnsupportedExtension));
    assert_eq!(format_for_extension(Some("")), Err(LoadError::UnsupportedExtension));
    assert_eq!(format_for_extension(None), Err(LoadError::UnsupportedExtension));
    assert_eq!(format_for_extension(extension("a.gcloud/scene.ply")), Ok(CloudFormat::Ply));
}

#[test]
fn unknown_extension_fails_whatever_the_bytes() {
    let loader = Gaussian3dLoader;
    let good = GaussianCloud::from_gaussians(vec![point()]).encode();
    assert_eq!(loader.load(&good, extension("scene.xyz")), Err(LoadError::UnsupportedExtension));
    assert_eq!(
        loader.load(PLY.as_bytes(), extension("scene.txt")),
        Err(LoadError::UnsupportedExtension)
    );
    assert!(LoadError::UnsupportedExtension.is_format_error());
}

#[test]
fn each_extension_reaches_its_decoder() {
    let loader = Gaussian3dLoader;
    let cloud = GaussianCloud::from_gaussians(vec![point()]);
    assert_eq!(loader.load(PLY.as_bytes(), extension("scene.ply")), Ok(cloud.clone()));
    assert_eq!(loader.load(&cloud.encode(), extension("scene.gcloud")), Ok(cloud.clone()));
    // the bytes of one format are no file of the other
    assert_eq!(
        loader.load(PLY.as_bytes(), extension("scene.gcloud")),
        Err(LoadError::Decode(DecodeError::Compression))
    );
    assert_eq!(
        loader.load(&cloud.encode(), extension("scene.ply")),
        Err(LoadError::Ply(PlyError::MalformedHeader))
    );
    assert_eq!(load_format(CloudFormat::Ply, PLY.as_bytes()), Ok(cloud.clone()));
    assert_eq!(load_by_extension(Some("gcloud"), &cloud.encode()), Ok(cloud));
}

#[test]
fn packed_loader_gives_the_same_splats() {
    let loader = GaussianCloudLoader;
    assert_eq!(loader.load(PLY.as_bytes(), Some("ply")), Ok(vec![point()]));
    let bytes = GaussianCloud::from_gaussians(vec![point(), point()]).encode();
    assert_eq!(loader.load(&bytes, Some("gcloud")), Ok(vec![point(), point()]));
    assert_eq!(loader.load(&bytes, Some("obj")), Err(LoadError::UnsupportedExtension));
}

#[test]
fn extensions_are_listed() {
    assert_eq!(Gaussian3dLoader.extensions(), vec!["ply", "gcloud"]);
    assert_eq!(GaussianCloudLoader.extensions(), vec!["ply", "gcloud"]);
    for extension in Gaussian3dLoader.extensions() {
        assert!(format_for_extension(Some(extension)).is_ok());
    }
}

#[test]
fn errors_are_sorted_into_kinds() {
    assert!(LoadError::UnsupportedExtension.is_format_error());
    assert!(LoadError::Ply(PlyError::MalformedHeader).is_format_error());
    assert!(!LoadError::Ply(PlyError::MissingVertexElement).is_format_error());
    assert!(!LoadError::Ply(PlyError::MalformedPayload).is_format_error());
    assert!(!LoadError::Decode(DecodeError::Compression).is_format_error());
    assert!(!LoadError::Decode(DecodeError::Layout).is_format_error());
    assert!(!LoadError::Decode(DecodeError::LengthMismatch).is_format_error());
    assert_eq!(LoadError::UnsupportedExtension.message(), "only .ply and .gcloud supported");
}
