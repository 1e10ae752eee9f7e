//! The compact binary form of a cloud: its columns, serialized and then
//! compressed.

use vstd::prelude::*;
use flate2::read::GzDecoder;
use flate2::write::GzEncoder;
use flate2::Compression;
use std::io::{Read, Write};
use crate::gaussian::cloud::GaussianCloud;
use crate::gaussian::packed::{
    Gaussian,
    PositionVisibility,
    Rotation,
    ScaleOpacity,
    Splat,
};
use crate::io::ply::splats;
use crate::material::spherical_harmonics::{
    SphericalHarmonicCoefficients,
    SH_CHANNELS,
    SH_COEFF_COUNT,
    SH_COEFF_COUNT_PER_CHANNEL,
};

verus! {

/// The columns of a cloud as the serializer takes them: position with
/// visibility, colour coefficients as one row of channels per basis function,
/// rotation, and scale with opacity.
pub struct PlainColumns {
    pub position_visibility: Vec<[u32; 4]>,
    pub spherical_harmonic: Vec<[[u32; 3]; 16]>,
    pub rotation: Vec<[u32; 4]>,
    pub scale_opacity: Vec<[u32; 4]>,
}

/// Serialized columns as mathematical values, in the order of
/// `PlainColumns`.
pub type ColumnsModel = (Seq<Seq<u32>>, Seq<Seq<Seq<u32>>>, Seq<Seq<u32>>, Seq<Seq<u32>>);

/// Rows of four values, each by its view.
pub open spec fn rows_view(rows: Seq<[u32; 4]>) -> Seq<Seq<u32>> {
    Seq::new(rows.len(), |i: int| rows[i]@)
}

/// Blocks of colour coefficients, each by the views of its rows.
pub open spec fn blocks_view(blocks: Seq<[[u32; 3]; 16]>) -> Seq<Seq<Seq<u32>>> {
    Seq::new(blocks.len(), |i: int| Seq::new(16, |rank: int| blocks[i]@[rank]@))
}

impl View for PlainColumns {
    type V = ColumnsModel;

    open spec fn view(&self) -> ColumnsModel {
        (
            rows_view(self.position_visibility@),
            blocks_view(self.spherical_harmonic@),
            rows_view(self.rotation@),
            rows_view(self.scale_opacity@),
        )
    }
}

/// All four columns have one length.
pub open spec fn aligned(columns: ColumnsModel) -> bool {
    &&& columns.1.len() == columns.0.len()
    &&& columns.2.len() == columns.0.len()
    &&& columns.3.len() == columns.0.len()
}

/// The splat that the columns hold at `i`.
pub open spec fn splat_at(columns: ColumnsModel, i: int) -> Splat {
    Splat {
        rotation: columns.2[i],
        position: columns.0[i].subrange(0, 3),
        visibility: columns.0[i][3],
        scale: columns.3[i].subrange(0, 3),
        opacity: columns.3[i][3],
        coefficients: Seq::new(
            SH_COEFF_COUNT as nat,
            |slot: int| columns.1[i][slot / SH_CHANNELS as int][slot % SH_CHANNELS as int],
        ),
    }
}

/// The splats that the columns hold, in index order.
pub open spec fn splats_of(columns: ColumnsModel) -> Seq<Splat> {
    Seq::new(columns.0.len(), |i: int| splat_at(columns, i))
}

/// One splat as a row of each column.
fn plain_rows(gaussian: &Gaussian) -> (rows: ([u32; 4], [[u32; 3]; 16], [u32; 4], [u32; 4]))
    ensures
        rows.0@ == gaussian@.position.push(gaussian@.visibility),
        rows.2@ == gaussian@.rotation,
        rows.3@ == gaussian@.scale.push(gaussian@.opacity),
        forall|slot: int|
            0 <= slot < SH_COEFF_COUNT ==> rows.1@[slot / SH_CHANNELS as int]@[slot
                % SH_CHANNELS as int] == gaussian@.coefficients[slot],
{
    let position = &gaussian.position_visibility.position;
    let scale = &gaussian.scale_opacity.scale;
    let coefficients = &gaussian.spherical_harmonic.coefficients;
    let mut block = [[0u32; 3]; 16];
    let mut rank: usize = 0;
    while rank < SH_COEFF_COUNT_PER_CHANNEL
        invariant
            rank <= SH_COEFF_COUNT_PER_CHANNEL,
            forall|r: int, c: int|
                0 <= r < rank && 0 <= c < 3 ==> (#[trigger] block@[r]@[c]) == coefficients@[r * 3
                    + c],
        decreases SH_COEFF_COUNT_PER_CHANNEL - rank,
    {
        let row = [
            coefficients[rank * SH_CHANNELS],
            coefficients[rank * SH_CHANNELS + 1],
            coefficients[rank * SH_CHANNELS + 2],
        ];
        block[rank] = row;
        rank = rank + 1;
    }
    let first = [position[0], position[1], position[2], gaussian.position_visibility.visibility];
    let last = [scale[0], scale[1], scale[2], gaussian.scale_opacity.opacity];
    proof {
        assert(first@ =~= gaussian@.position.push(gaussian@.visibility));
        assert(last@ =~= gaussian@.scale.push(gaussian@.opacity));
    }
    (first, block, gaussian.rotation.rotation, last)
}

/// One splat from a row of each column.
fn from_plain_rows(
    first: &[u32; 4],
    block: &[[u32; 3]; 16],
    rotation: &[u32; 4],
    last: &[u32; 4],
) -> (gaussian: Gaussian)
    ensures
        gaussian@.position == first@.subrange(0, 3),
        gaussian@.visibility == first@[3],
        gaussian@.rotation == rotation@,
        gaussian@.scale == last@.subrange(0, 3),
        gaussian@.opacity == last@[3],
        gaussian@.coefficients == Seq::new(
            SH_COEFF_COUNT as nat,
            |slot: int| block@[slot / SH_CHANNELS as int]@[slot % SH_CHANNELS as int],
        ),
{
    let mut coefficients = [0u32; SH_COEFF_COUNT];
    let mut slot: usize = 0;
    while slot < SH_COEFF_COUNT
        invariant
            slot <= SH_COEFF_COUNT,
            forall|s: int| 0 <= s < slot ==> coefficients@[s] == block@[s / 3]@[s % 3],
        decreases SH_COEFF_COUNT - slot,
    {
        let row = &block[slot / SH_CHANNELS];
        coefficients[slot] = row[slot % SH_CHANNELS];
        slot = slot + 1;
    }
    let gaussian = Gaussian {
        rotation: Rotation { rotation: *rotation },
        position_visibility: PositionVisibility {
            position: [first[0], first[1], first[2]],
            visibility: first[3],
        },
        scale_opacity: ScaleOpacity { scale: [last[0], last[1], last[2]], opacity: last[3] },
        spherical_harmonic: SphericalHarmonicCoefficients { coefficients },
    };
    proof {
        assert(gaussian@.position =~= first@.subrange(0, 3));
        assert(gaussian@.scale =~= last@.subrange(0, 3));
        assert(gaussian@.coefficients =~= Seq::new(
            SH_COEFF_COUNT as nat,
            |slot: int| block@[slot / SH_CHANNELS as int]@[slot % SH_CHANNELS as int],
        ));
    }
    gaussian
}

/// Why bytes could not be decoded into a cloud.
#[derive(Clone, Copy, Debug, PartialEq, Eq)]
pub enum DecodeError {
    /// The compressed stream is truncated or corrupt.
    Compression,
    /// The decompressed bytes are not four serialized columns.
    Layout,
    /// The columns differ in length.
    LengthMismatch,
}

impl GaussianCloud {
    /// The columns in the shape that is serialized.
    pub fn plain_columns(&self) -> (columns: PlainColumns)
        ensures
            aligned(columns@),
            splats_of(columns@) == splats(self@),
    {
        let count = self.len();
        let mut columns = PlainColumns {
            position_visibility: Vec::with_capacity(count),
            spherical_harmonic: Vec::with_capacity(count),
            rotation: Vec::with_capacity(count),
            scale_opacity: Vec::with_capacity(count),
        };
        let mut i: usize = 0;
        while i < count
            invariant
                i <= count,
                count == self@.len(),
                columns.position_visibility@.len() == i,
                columns.spherical_harmonic@.len() == i,
                columns.rotation@.len() == i,
                columns.scale_opacity@.len() == i,
                forall|j: int| 0 <= j < i ==> splat_at(columns@, j) == self@[j]@,
            decreases count - i,
        {
            let gaussian = self.gaussian(i);
            let rows = plain_rows(&gaussian);
            let ghost before = columns@;
            columns.position_visibility.push(rows.0);
            columns.spherical_harmonic.push(rows.1);
            columns.rotation.push(rows.2);
            columns.scale_opacity.push(rows.3);
            proof {
                assert forall|j: int| 0 <= j < i implies splat_at(columns@, j) == self@[j]@ by {
                    assert(columns@.0[j] == before.0[j]);
                    assert(columns@.1[j] =~= before.1[j]);
                    assert(columns@.2[j] == before.2[j]);
                    assert(columns@.3[j] == before.3[j]);
                    assert(splat_at(before, j) == self@[j]@);
                    assert(splat_at(columns@, j).coefficients =~= splat_at(before, j).coefficients);
                }
                let here = splat_at(columns@, i as int);
                assert(here.position =~= gaussian@.position);
                assert(here.scale =~= gaussian@.scale);
                assert(here.coefficients =~= gaussian@.coefficients);
            }
            i = i + 1;
        }
        proof {
            assert(splats_of(columns@) =~= splats(self@));
        }
        columns
    }

    /// Builds a cloud from columns as they were deserialized. Columns of
    /// different lengths make no cloud.
    pub fn from_plain_columns(columns: &PlainColumns) -> (result: Result<Self, DecodeError>)
        ensures
            match result {
                Ok(cloud) => aligned(columns@) && splats(cloud@) == splats_of(columns@),
                Err(e) => e == DecodeError::LengthMismatch && !aligned(columns@),
            },
    {
        let count = columns.position_visibility.len();
        if columns.spherical_harmonic.len() != count || columns.rotation.len() != count
            || columns.scale_opacity.len() != count {
            return Err(DecodeError::LengthMismatch);
        }
        let mut gaussians: Vec<Gaussian> = Vec::with_capacity(count);
        let mut i: usize = 0;
        while i < count
            invariant
                i <= count,
                count == columns.position_visibility@.len(),
                aligned(columns@),
                gaussians@.len() == i,
                forall|j: int| 0 <= j < i ==> (#[trigger] gaussians@[j])@ == splat_at(columns@, j),
            decreases count - i,
        {
            let gaussian = from_plain_rows(
                &columns.position_visibility[i],
                &columns.spherical_harmonic[i],
                &columns.rotation[i],
                &columns.scale_opacity[i],
            );
            proof {
                assert(gaussian@.coefficients =~= splat_at(columns@, i as int).coefficients);
            }
            gaussians.push(gaussian);
            i = i + 1;
        }
        let cloud = GaussianCloud::from_gaussians(gaussians);
        proof {
            assert(splats(cloud@) =~= splats_of(columns@));
        }
        Ok(cloud)
    }
}

/// The error type of `bincode2`. Nothing is known of a value but that there
/// is one.
#[verifier::external_type_specification]
#[verifier::external_body]
pub struct ExBincodeErrorKind(bincode2::ErrorKind);

/// What `flate2`'s gzip decoder reads from the stream `data`: the
/// decompressed bytes, or `None` where the stream is truncated or corrupt.
pub uninterp spec fn gzip_decoded(data: Seq<u8>) -> Option<Seq<u8>>;

/// What `bincode2` deserializes from `bytes` as four columns; `None` where
/// the bytes do not hold them.
pub uninterp spec fn bincode_decoded(bytes: Seq<u8>) -> Option<ColumnsModel>;

/// Compresses with `flate2::write::GzEncoder` at the default level, into
/// memory. The contract claims that the gzip decoder reads the input back
/// from what comes out. Writing into a `Vec` cannot fail.
#[verifier::external_body]
fn gzip_compress(data: &[u8]) -> (out: Vec<u8>)
    ensures
        gzip_decoded(out@) == Some(data@),
{
    let mut encoder = GzEncoder::new(Vec::new(), Compression::default());
    encoder.write_all(data).expect("writing to memory");
    encoder.finish().expect("writing to memory")
}

/// Decompresses with `flate2::read::GzDecoder`, reading the stream to its
/// end. The contract gives the outcome its name, `gzip_decoded`.
#[verifier::external_body]
fn gzip_decompress(data: &[u8]) -> (r: Result<Vec<u8>, std::io::Error>)
    ensures
        match r {
            Ok(out) => gzip_decoded(data@) == Some(out@),
            Err(_) => gzip_decoded(data@) is None,
        },
{
    let mut out = Vec::new();
    GzDecoder::new(data).read_to_end(&mut out)?;
    Ok(out)
}

/// Serializes the four columns with `bincode2::serialize`, as one tuple. The
/// contract claims that `bincode2` deserializes the same columns from what
/// comes out. With no size limit set, serializing these types cannot fail.
#[verifier::external_body]
fn bincode_serialize(columns: &PlainColumns) -> (bytes: Vec<u8>)
    ensures
        bincode_decoded(bytes@) == Some(columns@),
{
    bincode2::serialize(&(
        &columns.position_visibility,
        &columns.spherical_harmonic,
        &columns.rotation,
        &columns.scale_opacity,
    )).expect("serializing to memory")
}

/// Deserializes four columns with `bincode2::deserialize`. The contract
/// gives the outcome its name, `bincode_decoded`.
#[verifier::external_body]
fn bincode_deserialize(bytes: &[u8]) -> (r: Result<PlainColumns, Box<bincode2::ErrorKind>>)
    ensures
        match r {
            Ok(columns) => bincode_decoded(bytes@) == Some(columns@),
            Err(_) => bincode_decoded(bytes@) is None,
        },
{
    let (position_visibility, spherical_harmonic, rotation, scale_opacity) = bincode2::deserialize(
        bytes,
    )?;
    Ok(PlainColumns { position_visibility, spherical_harmonic, rotation, scale_opacity })
}

/// What a compressed stream decodes to: the splats of the cloud, or the
/// first reason why there is none.
pub open spec fn decoded(data: Seq<u8>) -> Result<Seq<Splat>, DecodeError> {
    match gzip_decoded(data) {
        None => Err(DecodeError::Compression),
        Some(bytes) => match bincode_decoded(bytes) {
            None => Err(DecodeError::Layout),
            Some(columns) => if aligned(columns) {
                Ok(splats_of(columns))
            } else {
                Err(DecodeError::LengthMismatch)
            },
        },
    }
}

impl GaussianCloud {
    /// Serializes the columns and compresses the result. What comes out
    /// decodes to this cloud again.
    pub fn encode(&self) -> (data: Vec<u8>)
        ensures
            decoded(data@) == Ok::<Seq<Splat>, DecodeError>(splats(self@)),
    {
        let columns = self.plain_columns();
        let bytes = bincode_serialize(&columns);
        gzip_compress(bytes.as_slice())
    }

    /// Decompresses and deserializes a cloud. A truncated or corrupt stream
    /// gives an error, never a part of a cloud.
    pub fn decode(data: &[u8]) -> (result: Result<Self, DecodeError>)
        ensures
            match result {
                Ok(cloud) => decoded(data@) == Ok::<Seq<Splat>, DecodeError>(splats(cloud@)),
                Err(e) => decoded(data@) == Err::<Seq<Splat>, DecodeError>(e),
            },
    {
        let bytes = match gzip_decompress(data) {
            Ok(bytes) => bytes,
            Err(_) => {
                return Err(DecodeError::Compression);
            },
        };
        let columns = match bincode_deserialize(bytes.as_slice()) {
            Ok(columns) => columns,
            Err(_) => {
                return Err(DecodeError::Layout);
            },
        };
        GaussianCloud::from_plain_columns(&columns)
    }
}

/// Splats with the same attribute values are the same splats.
pub proof fn lemma_splats_injective(a: Seq<Gaussian>, b: Seq<Gaussian>)
    requires
        splats(a) == splats(b),
    ensures
        a == b,
{
    assert(a.len() == splats(a).len());
    assert(b.len() == splats(b).len());
    assert forall|i: int| 0 <= i < a.len() implies a[i] == b[i] by {
        assert(splats(a)[i] == a[i]@);
        assert(splats(b)[i] == b[i]@);
        crate::gaussian::packed::lemma_gaussian_view_injective(a[i], b[i]);
    }
    assert(a =~= b);
}

/// The round trip: whatever cloud is decoded from the bytes that a cloud
/// was encoded to is that cloud, splat by splat and bit by bit, and decoding
/// such bytes does not fail.
pub proof fn lemma_decode_encode(
    cloud: Seq<Gaussian>,
    data: Seq<u8>,
    result: Result<Seq<Gaussian>, DecodeError>,
)
    requires
        decoded(data) == Ok::<Seq<Splat>, DecodeError>(splats(cloud)),
        match result {
            Ok(back) => decoded(data) == Ok::<Seq<Splat>, DecodeError>(splats(back)),
            Err(e) => decoded(data) == Err::<Seq<Splat>, DecodeError>(e),
        },
    ensures
        result == Ok::<Seq<Gaussian>, DecodeError>(cloud),
{
    match result {
        Ok(back) => {
            lemma_splats_injective(back, cloud);
        },
        Err(_) => {},
    }
}

} // verus!
