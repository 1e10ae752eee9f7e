use gaussian_splatting::gaussian::settings::{DrawMode, GaussianMode, PlaybackMode, RasterizeMode};
use gaussian_splatting::render::{
    shader_defs,
    CloudPipelineKey,
    ShaderDefVal,
    ShaderDefines,
    ShaderLayout,
};

fn layout() -> ShaderLayout {
    ShaderLayout {
        morph_particles: false,
        packed: false,
        buffer_storage: true,
        buffer_texture: false,
        precompute_covariance_3d: false,
        webgl2: false,
        sh_4d_coeff_count: 0,
        sh_degree_time: 0,
    }
}

#[test]
fn default_modes() {
    assert_eq!(DrawMode::default(), DrawMode::All);
    assert_eq!(GaussianMode::default(), GaussianMode::Gaussian3d);
    assert_eq!(PlaybackMode::default(), PlaybackMode::Forward);
    assert_eq!(RasterizeMode::default(), RasterizeMode::Color);
}

#[test]
fn default_sort_constants() {
    let d = ShaderDefines::default();
    assert_eq!(d.radix_bits_per_digit, 8);
    assert_eq!(d.radix_digit_places, 4);
    assert_eq!(d.radix_base, 256);
    assert_eq!(d.entries_per_invocation_a, 4);
    assert_eq!(d.entries_per_invocation_c, 4);
    assert_eq!(d.workgroup_invocations_a, 1024);
    assert_eq!(d.workgroup_invocations_c, 256);
    assert_eq!(d.workgroup_entries_a, 4096);
    assert_eq!(d.workgroup_entries_c, 1024);
    assert_eq!(d.sorting_buffer_size, 256 * 4 * 4 + 5 * 4);
    assert_eq!(d.temporal_sort_window_size, 16);
}

#[test]
fn tiles_are_counted_rounding_up() {
    let d = ShaderDefines::default();
    assert_eq!(d.max_tile_count(0), 0);
    assert_eq!(d.max_tile_count(1), 1);
    assert_eq!(d.max_tile_count(1024), 1);
    assert_eq!(d.max_tile_count(1025), 2);
    assert_eq!(d.max_tile_count(10_000), 10);
    assert_eq!(d.max_tile_count(u32::MAX as usize), 4_194_304);
    assert_eq!(d.sorting_status_counters_buffer_size(0), 0);
    assert_eq!(d.sorting_status_counters_buffer_size(1025), 256 * 2 * 4);
}

#[test]
fn shader_defs_for_the_default_key() {
    let defs = shader_defs(CloudPipelineKey::default(), layout());
    assert_eq!(defs.len(), 15 + 7);
    assert_eq!(defs[0], ShaderDefVal::UInt("SH_COEFF_COUNT", 48));
    assert_eq!(defs[2], ShaderDefVal::UInt("SH_DEGREE", 3));
    assert_eq!(defs[4], ShaderDefVal::UInt("HALF_SH_COEFF_COUNT", 24));
    assert_eq!(defs[5], ShaderDefVal::UInt("SH_VEC4_PLANES", 12));
    assert_eq!(defs[6], ShaderDefVal::UInt("RADIX_BASE", 256));
    assert_eq!(defs[14], ShaderDefVal::UInt("TEMPORAL_SORT_WINDOW_SIZE", 16));
    let names: Vec<ShaderDefVal> = defs[15..].to_vec();
    assert_eq!(names, vec![
        ShaderDefVal::Bool("USE_OBB", true),
        ShaderDefVal::Bool("BUFFER_STORAGE", true),
        ShaderDefVal::Bool("F32", true),
        ShaderDefVal::Bool("PLANAR_F32", true),
        ShaderDefVal::Bool("GAUSSIAN_3D", true),
        ShaderDefVal::Bool("GAUSSIAN_3D_STRUCTURE", true),
        ShaderDefVal::Bool("RASTERIZE_COLOR", true),
    ]);
}

#[test]
fn shader_defs_follow_the_key() {
    let key = CloudPipelineKey {
        aabb: true,
        visualize_bounding_box: true,
        opacity_adaptive_radius: true,
        draw_mode: DrawMode::HighlightSelected,
        gaussian_mode: GaussianMode::Gaussian4d,
        rasterize_mode: RasterizeMode::Depth,
        sample_count: 4,
        hdr: true,
    };
    let all = ShaderLayout {
        morph_particles: true,
        packed: true,
        buffer_storage: false,
        buffer_texture: true,
        precompute_covariance_3d: true,
        webgl2: true,
        sh_4d_coeff_count: 9,
        sh_degree_time: 2,
    };
    let defs = shader_defs(key, all);
    assert_eq!(defs[1], ShaderDefVal::UInt("SH_4D_COEFF_COUNT", 9));
    assert_eq!(defs[3], ShaderDefVal::UInt("SH_DEGREE_TIME", 2));
    let names: Vec<ShaderDefVal> = defs[15..].to_vec();
    assert_eq!(names, vec![
        ShaderDefVal::Bool("USE_AABB", true),
        ShaderDefVal::Bool("OPACITY_ADAPTIVE_RADIUS", true),
        ShaderDefVal::Bool("VISUALIZE_BOUNDING_BOX", true),
        ShaderDefVal::Bool("READ_WRITE_POINTS", true),
        ShaderDefVal::Bool("PACKED", true),
        ShaderDefVal::Bool("BUFFER_TEXTURE", true),
        ShaderDefVal::Bool("F32", true),
        ShaderDefVal::Bool("PACKED_F32", true),
        ShaderDefVal::Bool("PLANAR_TEXTURE_F32", true),
        ShaderDefVal::Bool("PRECOMPUTE_COVARIANCE_3D", true),
        ShaderDefVal::Bool("WEBGL2", true),
        ShaderDefVal::Bool("GAUSSIAN_4D", true),
        ShaderDefVal::Bool("RASTERIZE_DEPTH", true),
        ShaderDefVal::Bool("HIGHLIGHT_SELECTED", true),
    ]);
    let selected = CloudPipelineKey { draw_mode: DrawMode::Selected, ..CloudPipelineKey::default() };
    assert_eq!(*shader_defs(selected, layout()).last().unwrap(), ShaderDefVal::Bool(
        "DRAW_SELECTED",
        true,
    ));
}
