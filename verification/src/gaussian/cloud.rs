//! The columnar store: one sequence per attribute group.

use vstd::prelude::*;
use rand::seq::SliceRandom;
use crate::gaussian::packed::{
    Gaussian,
    PositionVisibility,
    Rotation,
    ScaleOpacity,
    HALF_BITS,
    MINUS_HALF_BITS,
    ONE_BITS,
};
use crate::material::spherical_harmonics::SphericalHarmonicCoefficients;

verus! {

/// The attribute columns of a store, as mathematical sequences.
pub struct Columns {
    pub position_visibility: Seq<PositionVisibility>,
    pub spherical_harmonic: Seq<SphericalHarmonicCoefficients>,
    pub rotation: Seq<Rotation>,
    pub scale_opacity: Seq<ScaleOpacity>,
}

impl Columns {
    /// All columns have one length, so an index names one splat in each.
    pub open spec fn aligned(self) -> bool {
        &&& self.spherical_harmonic.len() == self.position_visibility.len()
        &&& self.rotation.len() == self.position_visibility.len()
        &&& self.scale_opacity.len() == self.position_visibility.len()
    }

    /// Number of splats.
    pub open spec fn len(self) -> nat {
        self.position_visibility.len()
    }

    /// The splat at `i`, gathered across the columns.
    pub open spec fn record(self, i: int) -> Gaussian {
        Gaussian {
            rotation: self.rotation[i],
            position_visibility: self.position_visibility[i],
            scale_opacity: self.scale_opacity[i],
            spherical_harmonic: self.spherical_harmonic[i],
        }
    }

    /// Columns to records: the packed sequence of all splats.
    pub open spec fn gather(self) -> Seq<Gaussian> {
        Seq::new(self.len(), |i: int| self.record(i))
    }

    /// Records to columns: each attribute group of `records` in its own
    /// sequence.
    pub open spec fn scatter(records: Seq<Gaussian>) -> Columns {
        Columns {
            position_visibility: Seq::new(records.len(), |i: int| records[i].position_visibility),
            spherical_harmonic: Seq::new(records.len(), |i: int| records[i].spherical_harmonic),
            rotation: Seq::new(records.len(), |i: int| records[i].rotation),
            scale_opacity: Seq::new(records.len(), |i: int| records[i].scale_opacity),
        }
    }
}

/// Transposing twice, from records: scattering any records gives aligned
/// columns, and gathering those gives the records back.
pub proof fn lemma_gather_scatter(records: Seq<Gaussian>)
    ensures
        Columns::scatter(records).aligned(),
        Columns::scatter(records).gather() == records,
{
    assert(Columns::scatter(records).gather() =~= records);
}

/// Transposing twice, from columns: the store that is built from the packed
/// form of a store is that store. Gathering aligned columns and scattering
/// the records gives the columns back, each of them whole.
pub proof fn lemma_scatter_gather(columns: Columns)
    requires
        columns.aligned(),
    ensures
        Columns::scatter(columns.gather()) == columns,
{
    let back = Columns::scatter(columns.gather());
    assert(back.position_visibility =~= columns.position_visibility);
    assert(back.spherical_harmonic =~= columns.spherical_harmonic);
    assert(back.rotation =~= columns.rotation);
    assert(back.scale_opacity =~= columns.scale_opacity);
}

/// A cloud of splats held as parallel attribute columns. The columns always
/// have one length.
#[derive(Debug, PartialEq, Eq)]
pub struct GaussianCloud {
    position_visibility: Vec<PositionVisibility>,
    spherical_harmonic: Vec<SphericalHarmonicCoefficients>,
    rotation: Vec<Rotation>,
    scale_opacity: Vec<ScaleOpacity>,
}

impl View for GaussianCloud {
    type V = Seq<Gaussian>;

    /// The splats in index order, each gathered across the columns.
    open spec fn view(&self) -> Seq<Gaussian> {
        self.columns().gather()
    }
}

impl Clone for GaussianCloud {
    fn clone(&self) -> (cloud: Self)
        ensures
            cloud@ == self@,
    {
        GaussianCloud::from_gaussians(self.to_packed())
    }
}

impl Default for GaussianCloud {
    fn default() -> (cloud: Self)
        ensures
            cloud@.len() == 0,
    {
        GaussianCloud::from_gaussians(Vec::new())
    }
}

impl GaussianCloud {
    #[verifier::type_invariant]
    spec fn columns_aligned(&self) -> bool {
        self.columns().aligned()
    }

    /// The four columns as they are stored.
    pub closed spec fn columns(&self) -> Columns {
        Columns {
            position_visibility: self.position_visibility@,
            spherical_harmonic: self.spherical_harmonic@,
            rotation: self.rotation@,
            scale_opacity: self.scale_opacity@,
        }
    }

    pub fn is_empty(&self) -> (b: bool)
        ensures
            b <==> self@.len() == 0,
    {
        self.position_visibility.len() == 0
    }

    pub fn len(&self) -> (n: usize)
        ensures
            n == self@.len(),
    {
        self.position_visibility.len()
    }

    pub fn position(&self, index: usize) -> (p: &[u32; 3])
        requires
            index < self@.len(),
        ensures
            *p == self@[index as int].position_visibility.position,
    {
        &self.position_visibility[index].position
    }

    pub fn position_mut(&mut self, index: usize) -> (p: &mut [u32; 3])
        requires
            index < old(self)@.len(),
        ensures
            *p == old(self)@[index as int].position_visibility.position,
            final(self)@ == old(self)@.update(
                index as int,
                old(self)@[index as int].with_position(*final(p)),
            ),
    {
        proof {
            use_type_invariant(&*self);
        }
        &mut self.position_visibility[index].position
    }

    pub fn visibility(&self, index: usize) -> (v: u32)
        requires
            index < self@.len(),
        ensures
            v == self@[index as int].position_visibility.visibility,
    {
        self.position_visibility[index].visibility
    }

    pub fn visibility_mut(&mut self, index: usize) -> (v: &mut u32)
        requires
            index < old(self)@.len(),
        ensures
            *v == old(self)@[index as int].position_visibility.visibility,
            final(self)@ == old(self)@.update(
                index as int,
                old(self)@[index as int].with_visibility(*final(v)),
            ),
    {
        proof {
            use_type_invariant(&*self);
        }
        &mut self.position_visibility[index].visibility
    }

    pub fn rotation(&self, index: usize) -> (r: &[u32; 4])
        requires
            index < self@.len(),
        ensures
            *r == self@[index as int].rotation.rotation,
    {
        proof {
            use_type_invariant(self);
        }
        &self.rotation[index].rotation
    }

    pub fn rotation_mut(&mut self, index: usize) -> (r: &mut [u32; 4])
        requires
            index < old(self)@.len(),
        ensures
            *r == old(self)@[index as int].rotation.rotation,
            final(self)@ == old(self)@.update(
                index as int,
                old(self)@[index as int].with_rotation(*final(r)),
            ),
    {
        proof {
            use_type_invariant(&*self);
        }
        &mut self.rotation[index].rotation
    }

    pub fn scale(&self, index: usize) -> (s: &[u32; 3])
        requires
            index < self@.len(),
        ensures
            *s == self@[index as int].scale_opacity.scale,
    {
        proof {
            use_type_invariant(self);
        }
        &self.scale_opacity[index].scale
    }

    pub fn scale_mut(&mut self, index: usize) -> (s: &mut [u32; 3])
        requires
            index < old(self)@.len(),
        ensures
            *s == old(self)@[index as int].scale_opacity.scale,
            final(self)@ == old(self)@.update(
                index as int,
                old(self)@[index as int].with_scale(*final(s)),
            ),
    {
        proof {
            use_type_invariant(&*self);
        }
        &mut self.scale_opacity[index].scale
    }

    pub fn spherical_harmonic(&self, index: usize) -> (c: &[u32; 48])
        requires
            index < self@.len(),
        ensures
            *c == self@[index as int].spherical_harmonic.coefficients,
    {
        proof {
            use_type_invariant(self);
        }
        &self.spherical_harmonic[index].coefficients
    }

    pub fn spherical_harmonic_mut(&mut self, index: usize) -> (c: &mut [u32; 48])
        requires
            index < old(self)@.len(),
        ensures
            *c == old(self)@[index as int].spherical_harmonic.coefficients,
            final(self)@ == old(self)@.update(
                index as int,
                old(self)@[index as int].with_coefficients(*final(c)),
            ),
    {
        proof {
            use_type_invariant(&*self);
        }
        &mut self.spherical_harmonic[index].coefficients
    }

    /// The column of positions and visibility flags, whole: as long as the
    /// store, with the attribute group of splat `i` at `i`. The same holds of
    /// the three other columns.
    pub fn position_visibility_column(&self) -> (column: &[PositionVisibility])
        ensures
            column@ == self.columns().position_visibility,
            column@.len() == self@.len(),
            forall|i: int| 0 <= i < self@.len() ==> column@[i] == self@[i].position_visibility,
    {
        proof {
            use_type_invariant(self);
        }
        self.position_visibility.as_slice()
    }

    /// The column of colour coefficients, whole.
    pub fn spherical_harmonic_column(&self) -> (column: &[SphericalHarmonicCoefficients])
        ensures
            column@ == self.columns().spherical_harmonic,
            column@.len() == self@.len(),
            forall|i: int| 0 <= i < self@.len() ==> column@[i] == self@[i].spherical_harmonic,
    {
        proof {
            use_type_invariant(self);
        }
        self.spherical_harmonic.as_slice()
    }

    /// The column of rotations, whole.
    pub fn rotation_column(&self) -> (column: &[Rotation])
        ensures
            column@ == self.columns().rotation,
            column@.len() == self@.len(),
            forall|i: int| 0 <= i < self@.len() ==> column@[i] == self@[i].rotation,
    {
        proof {
            use_type_invariant(self);
        }
        self.rotation.as_slice()
    }

    /// The column of scales and opacities, whole.
    pub fn scale_opacity_column(&self) -> (column: &[ScaleOpacity])
        ensures
            column@ == self.columns().scale_opacity,
            column@.len() == self@.len(),
            forall|i: int| 0 <= i < self@.len() ==> column@[i] == self@[i].scale_opacity,
    {
        proof {
            use_type_invariant(self);
        }
        self.scale_opacity.as_slice()
    }

    /// Gathers the splat at `index` across the columns.
    pub fn gaussian(&self, index: usize) -> (g: Gaussian)
        requires
            index < self@.len(),
        ensures
            g == self@[index as int],
    {
        proof {
            use_type_invariant(self);
        }
        Gaussian {
            position_visibility: self.position_visibility[index],
            spherical_harmonic: self.spherical_harmonic[index],
            rotation: self.rotation[index],
            scale_opacity: self.scale_opacity[index],
        }
    }

    /// A new store that holds exactly the splats named by `indicies`, in the
    /// order given. An index may occur more than once.
    pub fn subset(&self, indicies: &[usize]) -> (sub: Self)
        requires
            forall|k: int| 0 <= k < indicies@.len() ==> indicies@[k] < self@.len(),
        ensures
            sub@ == Seq::new(indicies@.len(), |k: int| self@[indicies@[k] as int]),
    {
        proof {
            use_type_invariant(self);
        }
        let mut position_visibility: Vec<PositionVisibility> = Vec::with_capacity(indicies.len());
        let mut spherical_harmonic: Vec<SphericalHarmonicCoefficients> = Vec::with_capacity(
            indicies.len(),
        );
        let mut rotation: Vec<Rotation> = Vec::with_capacity(indicies.len());
        let mut scale_opacity: Vec<ScaleOpacity> = Vec::with_capacity(indicies.len());

        let mut k: usize = 0;
        while k < indicies.len()
            invariant
                k <= indicies@.len(),
                self.columns().aligned(),
                forall|j: int| 0 <= j < indicies@.len() ==> indicies@[j] < self@.len(),
                position_visibility@.len() == k,
                spherical_harmonic@.len() == k,
                rotation@.len() == k,
                scale_opacity@.len() == k,
                forall|j: int|
                    0 <= j < k ==> {
                        &&& position_visibility@[j] == self@[indicies@[j] as int].position_visibility
                        &&& spherical_harmonic@[j] == self@[indicies@[j] as int].spherical_harmonic
                        &&& rotation@[j] == self@[indicies@[j] as int].rotation
                        &&& scale_opacity@[j] == self@[indicies@[j] as int].scale_opacity
                    },
            decreases indicies@.len() - k,
        {
            let index = indicies[k];
            position_visibility.push(self.position_visibility[index]);
            spherical_harmonic.push(self.spherical_harmonic[index]);
            rotation.push(self.rotation[index]);
            scale_opacity.push(self.scale_opacity[index]);
            k = k + 1;
        }

        let sub = GaussianCloud { position_visibility, spherical_harmonic, rotation, scale_opacity };
        proof {
            assert(sub@ =~= Seq::new(indicies@.len(), |k: int| self@[indicies@[k] as int]));
        }
        sub
    }

    /// Materializes every splat, in index order.
    pub fn to_packed(&self) -> (gaussians: Vec<Gaussian>)
        ensures
            gaussians@ == self@,
            self.columns() == Columns::scatter(gaussians@),
    {
        proof {
            use_type_invariant(self);
            lemma_scatter_gather(self.columns());
        }
        let mut gaussians: Vec<Gaussian> = Vec::with_capacity(self.len());
        let mut index: usize = 0;
        while index < self.len()
            invariant
                index <= self@.len(),
                gaussians@.len() == index,
                forall|j: int| 0 <= j < index ==> gaussians@[j] == self@[j],
            decreases self@.len() - index,
        {
            gaussians.push(self.gaussian(index));
            index = index + 1;
        }
        proof {
            assert(gaussians@ =~= self@);
        }
        gaussians
    }

    /// Transposes packed records into columns.
    pub fn from_gaussians(gaussians: Vec<Gaussian>) -> (cloud: Self)
        ensures
            cloud@ == gaussians@,
            cloud.columns() == Columns::scatter(gaussians@),
    {
        let mut position_visibility: Vec<PositionVisibility> = Vec::with_capacity(gaussians.len());
        let mut spherical_harmonic: Vec<SphericalHarmonicCoefficients> = Vec::with_capacity(
            gaussians.len(),
        );
        let mut rotation: Vec<Rotation> = Vec::with_capacity(gaussians.len());
        let mut scale_opacity: Vec<ScaleOpacity> = Vec::with_capacity(gaussians.len());

        let mut k: usize = 0;
        while k < gaussians.len()
            invariant
                k <= gaussians@.len(),
                position_visibility@.len() == k,
                spherical_harmonic@.len() == k,
                rotation@.len() == k,
                scale_opacity@.len() == k,
                forall|j: int|
                    0 <= j < k ==> {
                        &&& position_visibility@[j] == gaussians@[j].position_visibility
                        &&& spherical_harmonic@[j] == gaussians@[j].spherical_harmonic
                        &&& rotation@[j] == gaussians@[j].rotation
                        &&& scale_opacity@[j] == gaussians@[j].scale_opacity
                    },
            decreases gaussians@.len() - k,
        {
            let gaussian = gaussians[k];
            position_visibility.push(gaussian.position_visibility);
            spherical_harmonic.push(gaussian.spherical_harmonic);
            rotation.push(gaussian.rotation);
            scale_opacity.push(gaussian.scale_opacity);
            k = k + 1;
        }

        let cloud = GaussianCloud { position_visibility, spherical_harmonic, rotation, scale_opacity };
        proof {
            let scattered = Columns::scatter(gaussians@);
            assert(cloud.columns().position_visibility =~= scattered.position_visibility);
            assert(cloud.columns().spherical_harmonic =~= scattered.spherical_harmonic);
            assert(cloud.columns().rotation =~= scattered.rotation);
            assert(cloud.columns().scale_opacity =~= scattered.scale_opacity);
            lemma_gather_scatter(gaussians@);
        }
        cloud
    }
}

/// A pass over the splats of a cloud, from the first to the last. It reads
/// the columns and takes nothing from them: a new pass starts at the first
/// splat again.
pub struct GaussianIter<'a> {
    cloud: &'a GaussianCloud,
    index: usize,
}

impl<'a> GaussianIter<'a> {
    /// The splats that the pass goes over.
    pub closed spec fn source(&self) -> Seq<Gaussian> {
        self.cloud@
    }

    /// How many splats the pass has handed out.
    pub closed spec fn position(&self) -> nat {
        self.index as nat
    }

    /// Hands out the next splat, or `None` once all were handed out.
    pub fn next(&mut self) -> (item: Option<Gaussian>)
        ensures
            final(self).source() == old(self).source(),
            match item {
                Some(gaussian) => {
                    &&& old(self).position() < old(self).source().len()
                    &&& gaussian == old(self).source()[old(self).position() as int]
                    &&& final(self).position() == old(self).position() + 1
                },
                None => {
                    &&& old(self).position() >= old(self).source().len()
                    &&& final(self).position() == old(self).position()
                },
            },
    {
        if self.index < self.cloud.len() {
            let gaussian = self.cloud.gaussian(self.index);
            self.index = self.index + 1;
            Some(gaussian)
        } else {
            None
        }
    }
}

/// A pass over the positions of a cloud, from the first to the last.
pub struct PositionIter<'a> {
    cloud: &'a GaussianCloud,
    index: usize,
}

impl<'a> PositionIter<'a> {
    /// The splats whose positions the pass goes over.
    pub closed spec fn source(&self) -> Seq<Gaussian> {
        self.cloud@
    }

    /// How many positions the pass has handed out.
    pub closed spec fn position(&self) -> nat {
        self.index as nat
    }

    /// Hands out the next position, or `None` once all were handed out.
    pub fn next(&mut self) -> (item: Option<&'a [u32; 3]>)
        ensures
            final(self).source() == old(self).source(),
            match item {
                Some(p) => {
                    &&& old(self).position() < old(self).source().len()
                    &&& *p == old(self).source()[old(self).position() as int].position_visibility.position
                    &&& final(self).position() == old(self).position() + 1
                },
                None => {
                    &&& old(self).position() >= old(self).source().len()
                    &&& final(self).position() == old(self).position()
                },
            },
    {
        if self.index < self.cloud.len() {
            let p = self.cloud.position(self.index);
            self.index = self.index + 1;
            Some(p)
        } else {
            None
        }
    }
}

impl GaussianCloud {
    /// Starts a pass over the positions.
    pub fn position_iter(&self) -> (iter: PositionIter<'_>)
        ensures
            iter.source() == self@,
            iter.position() == 0,
    {
        PositionIter { cloud: self, index: 0 }
    }

    /// Starts a pass over the splats, each gathered when it is handed out.
    pub fn gaussian_iter(&self) -> (iter: GaussianIter<'_>)
        ensures
            iter.source() == self@,
            iter.position() == 0,
    {
        GaussianIter { cloud: self, index: 0 }
    }
}

/// Number of corners of the model cube.
pub const MODEL_CORNERS: usize = 8;

/// A coordinate of a corner of the cube with side one about the origin. The
/// corners are counted with the x axis slowest and the z axis fastest, each
/// axis from its negative to its positive side; after the eighth the count
/// starts over.
pub open spec fn corner_coordinate(corner: int, axis: int) -> u32 {
    let side = if axis == 0 {
        (corner / 4) % 2
    } else if axis == 1 {
        (corner / 2) % 2
    } else {
        corner % 2
    };
    if side == 0 {
        MINUS_HALF_BITS
    } else {
        HALF_BITS
    }
}

/// Whether `gaussian` is the model's splat for `corner`: at the corner,
/// visible, with the identity rotation, scale and opacity one half, and the
/// given colour coefficients in some order.
pub open spec fn is_model_corner(gaussian: Gaussian, corner: int, coefficients: Seq<u32>) -> bool {
    &&& gaussian@.position == Seq::new(3, |axis: int| corner_coordinate(corner, axis))
    &&& gaussian@.visibility == ONE_BITS
    &&& gaussian@.rotation == seq![ONE_BITS, 0u32, 0u32, 0u32]
    &&& gaussian@.scale == seq![HALF_BITS, HALF_BITS, HALF_BITS]
    &&& gaussian@.opacity == HALF_BITS
    &&& gaussian@.coefficients.to_multiset() == coefficients.to_multiset()
}

/// The model's splat for `corner`, with the colour coefficients as given.
pub fn corner_gaussian(corner: usize, coefficients: [u32; 48]) -> (gaussian: Gaussian)
    ensures
        is_model_corner(gaussian, corner as int, coefficients@),
        gaussian@.coefficients == coefficients@,
{
    let x = if (corner / 4) % 2 == 0 {
        MINUS_HALF_BITS
    } else {
        HALF_BITS
    };
    let y = if (corner / 2) % 2 == 0 {
        MINUS_HALF_BITS
    } else {
        HALF_BITS
    };
    let z = if corner % 2 == 0 {
        MINUS_HALF_BITS
    } else {
        HALF_BITS
    };
    let gaussian = Gaussian {
        rotation: Rotation { rotation: [ONE_BITS, 0, 0, 0] },
        position_visibility: PositionVisibility { position: [x, y, z], visibility: ONE_BITS },
        scale_opacity: ScaleOpacity {
            scale: [HALF_BITS, HALF_BITS, HALF_BITS],
            opacity: HALF_BITS,
        },
        spherical_harmonic: SphericalHarmonicCoefficients { coefficients },
    };
    proof {
        assert(gaussian@.position =~= Seq::new(3, |axis: int| corner_coordinate(corner as int, axis)));
        assert(gaussian@.rotation =~= seq![ONE_BITS, 0u32, 0u32, 0u32]);
        assert(gaussian@.scale =~= seq![HALF_BITS, HALF_BITS, HALF_BITS]);
    }
    gaussian
}

/// Shuffles in place with `rand::seq::SliceRandom::shuffle`, drawing from
/// `rand::thread_rng`. The order that comes out is random; the contract
/// claims only that the same values are there, each as often as before.
#[verifier::external_body]
fn shuffle_coefficients(coefficients: &mut [u32; 48])
    ensures
        final(coefficients)@.to_multiset() == old(coefficients)@.to_multiset(),
{
    coefficients.shuffle(&mut rand::thread_rng());
}

impl GaussianCloud {
    /// A small cloud for trying things out: one splat at each corner of a
    /// cube, each with the given colour coefficients in an order of its own,
    /// drawn at random, and the first splat once more at the end.
    pub fn test_model(coefficients: [u32; 48]) -> (cloud: Self)
        ensures
            cloud@.len() == MODEL_CORNERS + 1,
            forall|corner: int|
                0 <= corner < MODEL_CORNERS ==> is_model_corner(
                    #[trigger] cloud@[corner],
                    corner,
                    coefficients@,
                ),
            cloud@[MODEL_CORNERS as int] == cloud@[0],
    {
        let mut gaussians: Vec<Gaussian> = Vec::new();
        let mut corner: usize = 0;
        while corner < MODEL_CORNERS
            invariant
                corner <= MODEL_CORNERS,
                gaussians@.len() == corner,
                forall|c: int|
                    0 <= c < corner ==> is_model_corner(#[trigger] gaussians@[c], c, coefficients@),
            decreases MODEL_CORNERS - corner,
        {
            let mut shuffled = coefficients;
            shuffle_coefficients(&mut shuffled);
            gaussians.push(corner_gaussian(corner, shuffled));
            corner = corner + 1;
        }
        let first = gaussians[0];
        gaussians.push(first);
        GaussianCloud::from_gaussians(gaussians)
    }
}

} // verus!
