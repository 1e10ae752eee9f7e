//! Sizes and names that the drawing side agrees on with its shaders.

use vstd::prelude::*;
use crate::gaussian::settings::{DrawMode, GaussianMode, RasterizeMode};
use crate::material::spherical_harmonics::{SH_COEFF_COUNT, SH_DEGREE};

verus! {

/// Bytes of one 32-bit word.
pub const WORD_BYTES: u32 = 4;

/// The constants of the radix sort that orders splats by depth.
#[derive(Clone, Copy, Debug, PartialEq, Eq)]
pub struct ShaderDefines {
    pub radix_bits_per_digit: u32,
    pub radix_digit_places: u32,
    pub radix_base: u32,
    pub entries_per_invocation_a: u32,
    pub entries_per_invocation_c: u32,
    pub workgroup_invocations_a: u32,
    pub workgroup_invocations_c: u32,
    pub workgroup_entries_a: u32,
    pub workgroup_entries_c: u32,
    pub sorting_buffer_size: u32,
    pub temporal_sort_window_size: u32,
}

impl ShaderDefines {
    /// Number of tiles of `workgroup_entries_c` entries that `count` entries
    /// fill, the last one perhaps in part. The count is taken as a 32-bit
    /// number.
    pub open spec fn tiles(self, count: usize) -> nat {
        let entries = (count as u32) as nat;
        let tile = self.workgroup_entries_c as nat;
        if entries % tile == 0 {
            entries / tile
        } else {
            entries / tile + 1
        }
    }

    pub fn max_tile_count(&self, count: usize) -> (tiles: u32)
        requires
            self.workgroup_entries_c > 0,
        ensures
            tiles == self.tiles(count),
    {
        let entries: u32 = #[verifier::truncate] (count as u32);
        let whole = entries / self.workgroup_entries_c;
        if entries % self.workgroup_entries_c == 0 {
            whole
        } else {
            proof {
                assert(whole < u32::MAX) by (nonlinear_arith)
                    requires
                        whole == entries / self.workgroup_entries_c,
                        entries % self.workgroup_entries_c != 0,
                        self.workgroup_entries_c > 0,
                        entries <= u32::MAX,
                ;
            }
            whole + 1
        }
    }

    /// Bytes of the status counters of the sort: one word for each digit
    /// value in each tile.
    pub fn sorting_status_counters_buffer_size(&self, count: usize) -> (bytes: usize)
        requires
            self.workgroup_entries_c > 0,
            self.radix_base * self.tiles(count) * WORD_BYTES <= usize::MAX,
        ensures
            bytes == self.radix_base * self.tiles(count) * WORD_BYTES,
    {
        let tiles = self.max_tile_count(count);
        proof {
            assert(self.radix_base * tiles <= self.radix_base * tiles * WORD_BYTES)
                by (nonlinear_arith);
        }
        self.radix_base as usize * tiles as usize * WORD_BYTES as usize
    }
}

impl ShaderDefines {
    /// The constants of a sort with eight bits per digit and four entries
    /// per invocation.
    pub open spec fn standard() -> ShaderDefines {
        ShaderDefines {
            radix_bits_per_digit: 8,
            radix_digit_places: 4,
            radix_base: 256,
            entries_per_invocation_a: 4,
            entries_per_invocation_c: 4,
            workgroup_invocations_a: 1024,
            workgroup_invocations_c: 256,
            workgroup_entries_a: 4096,
            workgroup_entries_c: 1024,
            sorting_buffer_size: 4116,
            temporal_sort_window_size: 16,
        }
    }
}

impl Default for ShaderDefines {
    fn default() -> (defines: Self)
        ensures
            defines == ShaderDefines::standard(),
    {
        let radix_bits_per_digit: u32 = 8;
        let radix_digit_places: u32 = 32 / radix_bits_per_digit;
        let radix_base: u32 = 1u32 << radix_bits_per_digit;
        proof {
            assert(1u32 << 8u32 == 256u32) by (bit_vector);
        }
        let entries_per_invocation_a: u32 = 4;
        let entries_per_invocation_c: u32 = 4;
        let workgroup_invocations_a: u32 = radix_base * radix_digit_places;
        let workgroup_invocations_c: u32 = radix_base;
        let workgroup_entries_a: u32 = workgroup_invocations_a * entries_per_invocation_a;
        let workgroup_entries_c: u32 = workgroup_invocations_c * entries_per_invocation_c;
        let sorting_buffer_size: u32 = radix_base * radix_digit_places * WORD_BYTES + 5
            * WORD_BYTES;
        ShaderDefines {
            radix_bits_per_digit,
            radix_digit_places,
            radix_base,
            entries_per_invocation_a,
            entries_per_invocation_c,
            workgroup_invocations_a,
            workgroup_invocations_c,
            workgroup_entries_a,
            workgroup_entries_c,
            sorting_buffer_size,
            temporal_sort_window_size: 16,
        }
    }
}

/// A name that a shader is compiled with, and its value.
#[derive(Clone, Copy, Debug, PartialEq, Eq)]
pub enum ShaderDefVal {
    /// A name that is defined or not.
    Bool(&'static str, bool),
    /// A name with an unsigned number.
    UInt(&'static str, u32),
}

/// What decides how the shaders of a cloud are compiled.
#[derive(Clone, Copy, Debug, PartialEq, Eq, Hash)]
pub struct CloudPipelineKey {
    pub aabb: bool,
    pub visualize_bounding_box: bool,
    pub opacity_adaptive_radius: bool,
    pub draw_mode: DrawMode,
    pub gaussian_mode: GaussianMode,
    pub rasterize_mode: RasterizeMode,
    pub sample_count: u32,
    pub hdr: bool,
}

impl Default for CloudPipelineKey {
    fn default() -> (key: Self)
        ensures
            key == (CloudPipelineKey {
                aabb: false,
                visualize_bounding_box: false,
                opacity_adaptive_radius: false,
                draw_mode: DrawMode::All,
                gaussian_mode: GaussianMode::Gaussian3d,
                rasterize_mode: RasterizeMode::Color,
                sample_count: 0,
                hdr: false,
            }),
    {
        CloudPipelineKey {
            aabb: false,
            visualize_bounding_box: false,
            opacity_adaptive_radius: false,
            draw_mode: DrawMode::default(),
            gaussian_mode: GaussianMode::default(),
            rasterize_mode: RasterizeMode::default(),
            sample_count: 0,
            hdr: false,
        }
    }
}

/// How the data of a cloud is laid out for the shaders, and what the build
/// was made for. Splats with a time axis bring coefficient counts of their
/// own.
#[derive(Clone, Copy, Debug, PartialEq, Eq)]
pub struct ShaderLayout {
    pub morph_particles: bool,
    pub packed: bool,
    pub buffer_storage: bool,
    pub buffer_texture: bool,
    pub precompute_covariance_3d: bool,
    pub webgl2: bool,
    pub sh_4d_coeff_count: u32,
    pub sh_degree_time: u32,
}

/// Half of the colour coefficients of a splat.
pub const HALF_SH_COEFF_COUNT: usize = SH_COEFF_COUNT / 2;

/// Number of four-component planes that the colour coefficients fill.
pub const SH_VEC4_PLANES: usize = SH_COEFF_COUNT / 4;

/// `defs` with the name defined behind it, where `wanted` holds.
pub open spec fn defined_if(defs: Seq<ShaderDefVal>, wanted: bool, name: &'static str) -> Seq<
    ShaderDefVal,
> {
    if wanted {
        defs.push(ShaderDefVal::Bool(name, true))
    } else {
        defs
    }
}

/// The numbers that every shader is compiled with.
pub open spec fn numeric_defs(layout: ShaderLayout, defines: ShaderDefines) -> Seq<ShaderDefVal> {
    seq![
        ShaderDefVal::UInt("SH_COEFF_COUNT", SH_COEFF_COUNT as u32),
        ShaderDefVal::UInt("SH_4D_COEFF_COUNT", layout.sh_4d_coeff_count),
        ShaderDefVal::UInt("SH_DEGREE", SH_DEGREE as u32),
        ShaderDefVal::UInt("SH_DEGREE_TIME", layout.sh_degree_time),
        ShaderDefVal::UInt("HALF_SH_COEFF_COUNT", HALF_SH_COEFF_COUNT as u32),
        ShaderDefVal::UInt("SH_VEC4_PLANES", SH_VEC4_PLANES as u32),
        ShaderDefVal::UInt("RADIX_BASE", defines.radix_base),
        ShaderDefVal::UInt("RADIX_BITS_PER_DIGIT", defines.radix_bits_per_digit),
        ShaderDefVal::UInt("RADIX_DIGIT_PLACES", defines.radix_digit_places),
        ShaderDefVal::UInt("ENTRIES_PER_INVOCATION_A", defines.entries_per_invocation_a),
        ShaderDefVal::UInt("ENTRIES_PER_INVOCATION_C", defines.entries_per_invocation_c),
        ShaderDefVal::UInt("WORKGROUP_INVOCATIONS_A", defines.workgroup_invocations_a),
        ShaderDefVal::UInt("WORKGROUP_INVOCATIONS_C", defines.workgroup_invocations_c),
        ShaderDefVal::UInt("WORKGROUP_ENTRIES_C", defines.workgroup_entries_c),
        ShaderDefVal::UInt("TEMPORAL_SORT_WINDOW_SIZE", defines.temporal_sort_window_size),
    ]
}

/// The names that follow from the bounding box settings of the key.
pub open spec fn bounds_defs(defs: Seq<ShaderDefVal>, key: CloudPipelineKey) -> Seq<ShaderDefVal> {
    let defs = defined_if(defs, key.aabb, "USE_AABB");
    let defs = defined_if(defs, !key.aabb, "USE_OBB");
    let defs = defined_if(defs, key.opacity_adaptive_radius, "OPACITY_ADAPTIVE_RADIUS");
    defined_if(defs, key.visualize_bounding_box, "VISUALIZE_BOUNDING_BOX")
}

/// The names that follow from the layout.
pub open spec fn layout_defs(defs: Seq<ShaderDefVal>, layout: ShaderLayout) -> Seq<ShaderDefVal> {
    let defs = defined_if(defs, layout.morph_particles, "READ_WRITE_POINTS");
    let defs = defined_if(defs, layout.packed, "PACKED");
    let defs = defined_if(defs, layout.buffer_storage, "BUFFER_STORAGE");
    let defs = defined_if(defs, layout.buffer_texture, "BUFFER_TEXTURE");
    let defs = defs.push(ShaderDefVal::Bool("F32", true));
    let defs = defined_if(defs, layout.packed, "PACKED_F32");
    let defs = defined_if(defs, layout.buffer_storage, "PLANAR_F32");
    let defs = defined_if(defs, layout.buffer_texture, "PLANAR_TEXTURE_F32");
    let defs = defined_if(defs, layout.precompute_covariance_3d, "PRECOMPUTE_COVARIANCE_3D");
    defined_if(defs, layout.webgl2, "WEBGL2")
}

/// The names that follow from the modes of the key.
pub open spec fn mode_defs(defs: Seq<ShaderDefVal>, key: CloudPipelineKey) -> Seq<ShaderDefVal> {
    let defs = defs.push(
        ShaderDefVal::Bool(
            match key.gaussian_mode {
                GaussianMode::Gaussian2d => "GAUSSIAN_2D",
                GaussianMode::Gaussian3d => "GAUSSIAN_3D",
                GaussianMode::Gaussian4d => "GAUSSIAN_4D",
            },
            true,
        ),
    );
    let defs = defined_if(
        defs,
        key.gaussian_mode != GaussianMode::Gaussian4d,
        "GAUSSIAN_3D_STRUCTURE",
    );
    let defs = defs.push(
        ShaderDefVal::Bool(
            match key.rasterize_mode {
                RasterizeMode::Color => "RASTERIZE_COLOR",
                RasterizeMode::Depth => "RASTERIZE_DEPTH",
                RasterizeMode::Normal => "RASTERIZE_NORMAL",
            },
            true,
        ),
    );
    match key.draw_mode {
        DrawMode::All => defs,
        DrawMode::Selected => defs.push(ShaderDefVal::Bool("DRAW_SELECTED", true)),
        DrawMode::HighlightSelected => defs.push(ShaderDefVal::Bool("HIGHLIGHT_SELECTED", true)),
    }
}

/// `defs` with `name` defined behind it, where `wanted` holds.
fn define_if(defs: &mut Vec<ShaderDefVal>, wanted: bool, name: &'static str)
    ensures
        final(defs)@ == defined_if(old(defs)@, wanted, name),
{
    if wanted {
        defs.push(ShaderDefVal::Bool(name, true));
    }
}

/// The names and numbers that the shaders of a cloud are compiled with, in
/// the order in which they are defined.
pub fn shader_defs(key: CloudPipelineKey, layout: ShaderLayout) -> (defs: Vec<ShaderDefVal>)
    ensures
        defs@ == mode_defs(
            layout_defs(bounds_defs(numeric_defs(layout, ShaderDefines::standard()), key), layout),
            key,
        ),
{
    let defines = ShaderDefines::default();
    let mut defs: Vec<ShaderDefVal> = Vec::new();
    defs.push(ShaderDefVal::UInt("SH_COEFF_COUNT", SH_COEFF_COUNT as u32));
    defs.push(ShaderDefVal::UInt("SH_4D_COEFF_COUNT", layout.sh_4d_coeff_count));
    defs.push(ShaderDefVal::UInt("SH_DEGREE", SH_DEGREE as u32));
    defs.push(ShaderDefVal::UInt("SH_DEGREE_TIME", layout.sh_degree_time));
    defs.push(ShaderDefVal::UInt("HALF_SH_COEFF_COUNT", HALF_SH_COEFF_COUNT as u32));
    defs.push(ShaderDefVal::UInt("SH_VEC4_PLANES", SH_VEC4_PLANES as u32));
    defs.push(ShaderDefVal::UInt("RADIX_BASE", defines.radix_base));
    defs.push(ShaderDefVal::UInt("RADIX_BITS_PER_DIGIT", defines.radix_bits_per_digit));
    defs.push(ShaderDefVal::UInt("RADIX_DIGIT_PLACES", defines.radix_digit_places));
    defs.push(ShaderDefVal::UInt("ENTRIES_PER_INVOCATION_A", defines.entries_per_invocation_a));
    defs.push(ShaderDefVal::UInt("ENTRIES_PER_INVOCATION_C", defines.entries_per_invocation_c));
    defs.push(ShaderDefVal::UInt("WORKGROUP_INVOCATIONS_A", defines.workgroup_invocations_a));
    defs.push(ShaderDefVal::UInt("WORKGROUP_INVOCATIONS_C", defines.workgroup_invocations_c));
    defs.push(ShaderDefVal::UInt("WORKGROUP_ENTRIES_C", defines.workgroup_entries_c));
    defs.push(
        ShaderDefVal::UInt("TEMPORAL_SORT_WINDOW_SIZE", defines.temporal_sort_window_size),
    );
    proof {
        assert(defs@ =~= numeric_defs(layout, defines));
    }

    define_if(&mut defs, key.aabb, "USE_AABB");
    define_if(&mut defs, !key.aabb, "USE_OBB");
    define_if(&mut defs, key.opacity_adaptive_radius, "OPACITY_ADAPTIVE_RADIUS");
    define_if(&mut defs, key.visualize_bounding_box, "VISUALIZE_BOUNDING_BOX");

    define_if(&mut defs, layout.morph_particles, "READ_WRITE_POINTS");
    define_if(&mut defs, layout.packed, "PACKED");
    define_if(&mut defs, layout.buffer_storage, "BUFFER_STORAGE");
    define_if(&mut defs, layout.buffer_texture, "BUFFER_TEXTURE");
    defs.push(ShaderDefVal::Bool("F32", true));
    define_if(&mut defs, layout.packed, "PACKED_F32");
    define_if(&mut defs, layout.buffer_storage, "PLANAR_F32");
    define_if(&mut defs, layout.buffer_texture, "PLANAR_TEXTURE_F32");
    define_if(&mut defs, layout.precompute_covariance_3d, "PRECOMPUTE_COVARIANCE_3D");
    define_if(&mut defs, layout.webgl2, "WEBGL2");

    match key.gaussian_mode {
        GaussianMode::Gaussian2d => defs.push(ShaderDefVal::Bool("GAUSSIAN_2D", true)),
        GaussianMode::Gaussian3d => defs.push(ShaderDefVal::Bool("GAUSSIAN_3D", true)),
        GaussianMode::Gaussian4d => defs.push(ShaderDefVal::Bool("GAUSSIAN_4D", true)),
    }
    match key.gaussian_mode {
        GaussianMode::Gaussian2d | GaussianMode::Gaussian3d => {
            defs.push(ShaderDefVal::Bool("GAUSSIAN_3D_STRUCTURE", true));
        },
        _ => {},
    }
    match key.rasterize_mode {
        RasterizeMode::Color => defs.push(ShaderDefVal::Bool("RASTERIZE_COLOR", true)),
        RasterizeMode::Depth => defs.push(ShaderDefVal::Bool("RASTERIZE_DEPTH", true)),
        RasterizeMode::Normal => defs.push(ShaderDefVal::Bool("RASTERIZE_NORMAL", true)),
    }
    match key.draw_mode {
        DrawMode::All => {},
        DrawMode::Selected => defs.push(ShaderDefVal::Bool("DRAW_SELECTED", true)),
        DrawMode::HighlightSelected => defs.push(ShaderDefVal::Bool("HIGHLIGHT_SELECTED", true)),
    }
    defs
}

} // verus!
